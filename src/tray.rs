//! The status-bar item: its label and the ordered entries of its menu.
//!
//! Entries are addressed by position, separators included. The logical keys
//! of the standard menu map to fixed positions, so a key finds its entry only
//! while the menu is built in the standard order.
use vstd::prelude::*;

verus! {

/// The logical role of each clickable entry of the status menu.
#[derive(PartialEq, Eq, Structural, Clone, Copy, Debug)]
pub enum SystemTrayMenuItemKey {
    ShowUI,
    Enable,
    TypingMethodTelex,
    TypingMethodVNI,
    Exit,
}

/// Position of a key's entry in the standard menu: separators count too.
pub open spec fn key_index(key: SystemTrayMenuItemKey) -> int {
    match key {
        SystemTrayMenuItemKey::ShowUI => 0,
        SystemTrayMenuItemKey::Enable => 2,
        SystemTrayMenuItemKey::TypingMethodTelex => 4,
        SystemTrayMenuItemKey::TypingMethodVNI => 5,
        SystemTrayMenuItemKey::Exit => 7,
    }
}

/// One entry of the menu: a divider, or a titled item that runs its action
/// (if it has one) when clicked. The item owns its action.
pub enum MenuEntry<B> {
    Separator,
    Item { title: String, action: Option<B> },
}

/// Whether position `i` of `menu` holds a clickable item.
pub open spec fn is_item_at<B>(menu: Seq<MenuEntry<B>>, i: int) -> bool {
    0 <= i < menu.len() && menu[i] is Item
}

/// What a click on position `i` runs: nothing for a separator or a position
/// past the end.
pub open spec fn action_at<B>(menu: Seq<MenuEntry<B>>, i: int) -> Option<B> {
    if is_item_at(menu, i) {
        menu[i]->Item_action
    } else {
        None
    }
}

/// `menu` with the item at `i` bound to `cb`, its title kept; unchanged where
/// `i` holds no item.
pub open spec fn rebound<B>(menu: Seq<MenuEntry<B>>, i: int, cb: B) -> Seq<MenuEntry<B>> {
    if is_item_at(menu, i) {
        menu.update(i, MenuEntry::Item { title: menu[i]->Item_title, action: Some(cb) })
    } else {
        menu
    }
}

/// `after` is `before` with the item at `i` renamed to `t`, its action kept;
/// the two are equal where `i` holds no item.
pub open spec fn retitled<B>(
    before: Seq<MenuEntry<B>>,
    after: Seq<MenuEntry<B>>,
    i: int,
    t: Seq<char>,
) -> bool {
    &&& after.len() == before.len()
    &&& forall|j: int| 0 <= j < before.len() && j != i ==> after[j] == before[j]
    &&& if is_item_at(before, i) {
        &&& after[i] is Item
        &&& after[i]->Item_title@ == t
        &&& after[i]->Item_action == before[i]->Item_action
    } else {
        after[i] == before[i] || !(0 <= i < before.len())
    }
}

/// Position `i` of `menu` holds an item titled `t` whose action is one that
/// `make_action` returns.
pub open spec fn is_standard_item<B, G: Fn() -> B>(
    menu: Seq<MenuEntry<B>>,
    i: int,
    t: Seq<char>,
    make_action: G,
) -> bool {
    &&& 0 <= i < menu.len()
    &&& menu[i] is Item
    &&& menu[i]->Item_title@ == t
    &&& menu[i]->Item_action matches Some(b) && make_action.ensures((), b)
}

/// The eight entries of the standard menu stand in `menu` from position `s`,
/// each item bound to an action that `make_action` returns.
pub open spec fn is_standard_menu<B, G: Fn() -> B>(
    menu: Seq<MenuEntry<B>>,
    s: int,
    make_action: G,
) -> bool {
    &&& s + 8 <= menu.len()
    &&& is_standard_item(menu, s, "Bật bảng điều khiển"@, make_action)
    &&& menu[s + 1] is Separator
    &&& is_standard_item(menu, s + 2, "Tắt gõ tiếng việt"@, make_action)
    &&& menu[s + 3] is Separator
    &&& is_standard_item(menu, s + 4, "Telex ✓"@, make_action)
    &&& is_standard_item(menu, s + 5, "VNI"@, make_action)
    &&& menu[s + 6] is Separator
    &&& is_standard_item(menu, s + 7, "Thoát ứng dụng"@, make_action)
}

/// The status-bar item: the label shown in the bar and the menu under it.
#[verifier::reject_recursive_types(B)]
pub struct SystemTray<B> {
    title: String,
    entries: Vec<MenuEntry<B>>,
}

impl<B> SystemTray<B> {
    /// The label shown in the status bar.
    pub closed spec fn label(&self) -> Seq<char> {
        self.title@
    }

    /// The entries of the menu, in order.
    pub closed spec fn menu(&self) -> Seq<MenuEntry<B>> {
        self.entries@
    }

    /// A status item with the given label and an empty menu.
    pub fn with_label(label: &str) -> (r: Self)
        ensures
            r.label() == label@,
            r.menu() == Seq::<MenuEntry<B>>::empty(),
    {
        SystemTray { title: label.to_string(), entries: Vec::new() }
    }

    /// The status item as the application shows it: labelled "VN", with the
    /// standard menu, each item bound to an action from `make_action` (one
    /// that does nothing, until the application binds its own).
    pub fn new<G: Fn() -> B>(make_action: G) -> (r: Self)
        requires
            make_action.requires(()),
        ensures
            r.label() == "VN"@,
            is_standard_menu(r.menu(), 0, make_action),
            r.menu().len() == 8,
            forall|key: SystemTrayMenuItemKey| #[trigger] is_item_at(r.menu(), key_index(key)),
    {
        let mut tray = Self::with_label("VN");
        tray.init_menu_items(&make_action);
        assert forall|key: SystemTrayMenuItemKey| #[trigger] is_item_at(tray.menu(), key_index(key)) by {
            match key {
                SystemTrayMenuItemKey::ShowUI => {},
                SystemTrayMenuItemKey::Enable => {},
                SystemTrayMenuItemKey::TypingMethodTelex => {},
                SystemTrayMenuItemKey::TypingMethodVNI => {},
                SystemTrayMenuItemKey::Exit => {},
            }
        }
        tray
    }

    /// Appends the entries of the standard menu, in the order that the keys'
    /// positions assume, each item bound to an action from `make_action`.
    pub fn init_menu_items<G: Fn() -> B>(&mut self, make_action: &G)
        requires
            make_action.requires(()),
        ensures
            final(self).label() == old(self).label(),
            final(self).menu().len() == old(self).menu().len() + 8,
            final(self).menu().subrange(0, old(self).menu().len() as int) == old(self).menu(),
            is_standard_menu(final(self).menu(), old(self).menu().len() as int, *make_action),
    {
        let ghost start = self.entries@.len() as int;
        self.add_standard_item("Bật bảng điều khiển", make_action);
        self.add_menu_separator();
        self.add_standard_item("Tắt gõ tiếng việt", make_action);
        self.add_menu_separator();
        self.add_standard_item("Telex ✓", make_action);
        self.add_standard_item("VNI", make_action);
        self.add_menu_separator();
        self.add_standard_item("Thoát ứng dụng", make_action);
        assert(self.entries@.subrange(0, start) =~= old(self).entries@);
    }

    /// Appends an item titled `label`, bound to an action from `make_action`.
    fn add_standard_item<G: Fn() -> B>(&mut self, label: &str, make_action: &G)
        requires
            make_action.requires(()),
        ensures
            final(self).label() == old(self).label(),
            final(self).menu() == old(self).menu().push(final(self).menu().last()),
            final(self).menu().last() is Item,
            final(self).menu().last()->Item_title@ == label@,
            final(self).menu().last()->Item_action matches Some(b) && make_action.ensures((), b),
    {
        let action = make_action();
        self.entries.push(MenuEntry::Item { title: label.to_string(), action: Some(action) });
    }

    /// Replaces the label shown in the status bar.
    pub fn set_title(&mut self, title: &str)
        ensures
            final(self).label() == title@,
            final(self).menu() == old(self).menu(),
    {
        self.title = title.to_string();
    }

    /// Appends a divider; it takes up a position like any entry.
    pub fn add_menu_separator(&mut self)
        ensures
            final(self).label() == old(self).label(),
            final(self).menu() == old(self).menu().push(MenuEntry::Separator),
    {
        self.entries.push(MenuEntry::Separator);
    }

    /// Appends an item titled `label` that runs `cb` when clicked.
    pub fn add_menu_item(&mut self, label: &str, cb: B)
        ensures
            final(self).label() == old(self).label(),
            final(self).menu() == old(self).menu().push(final(self).menu().last()),
            final(self).menu().last() is Item,
            final(self).menu().last()->Item_title@ == label@,
            final(self).menu().last()->Item_action == Some(cb),
    {
        self.entries.push(MenuEntry::Item { title: label.to_string(), action: Some(cb) });
    }

    /// The position of a key's entry in the standard menu.
    pub fn get_menu_item_index_by_key(&self, key: SystemTrayMenuItemKey) -> (r: i64)
        ensures
            r == key_index(key),
    {
        match key {
            SystemTrayMenuItemKey::ShowUI => 0,
            SystemTrayMenuItemKey::Enable => 2,
            SystemTrayMenuItemKey::TypingMethodTelex => 4,
            SystemTrayMenuItemKey::TypingMethodVNI => 5,
            SystemTrayMenuItemKey::Exit => 7,
        }
    }

    /// Renames the item of `key`; skipped where the menu holds no item there.
    pub fn set_menu_item_title(&mut self, key: SystemTrayMenuItemKey, label: &str)
        ensures
            final(self).label() == old(self).label(),
            retitled(old(self).menu(), final(self).menu(), key_index(key), label@),
    {
        let index = self.get_menu_item_index_by_key(key) as usize;
        if index < self.entries.len() {
            let mut entry = MenuEntry::Separator;
            std::mem::swap(&mut self.entries[index], &mut entry);
            let entry = match entry {
                MenuEntry::Item { title: _, action } => MenuEntry::Item {
                    title: label.to_string(),
                    action,
                },
                MenuEntry::Separator => MenuEntry::Separator,
            };
            self.entries[index] = entry;
        }
    }

    /// Binds the item of `key` to `cb`, dropping the action it had; skipped
    /// where the menu holds no item there.
    pub fn set_menu_item_callback(&mut self, key: SystemTrayMenuItemKey, cb: B)
        ensures
            final(self).label() == old(self).label(),
            final(self).menu() == rebound(old(self).menu(), key_index(key), cb),
    {
        let index = self.get_menu_item_index_by_key(key) as usize;
        if index < self.entries.len() {
            let mut entry = MenuEntry::Separator;
            std::mem::swap(&mut self.entries[index], &mut entry);
            let entry = match entry {
                MenuEntry::Item { title, action: _ } => MenuEntry::Item { title, action: Some(cb) },
                MenuEntry::Separator => MenuEntry::Separator,
            };
            self.entries[index] = entry;
        }
        assert(self.entries@ =~= rebound(old(self).entries@, key_index(key), cb));
    }

    /// The label shown in the status bar.
    pub fn title(&self) -> (r: &str)
        ensures
            r@ == self.label(),
    {
        self.title.as_str()
    }

    /// The number of entries in the menu, separators included.
    pub fn menu_len(&self) -> (r: usize)
        ensures
            r == self.menu().len(),
    {
        self.entries.len()
    }

    /// The title of the item at `index`; `None` for a separator or a position
    /// past the end.
    pub fn item_title(&self, index: usize) -> (r: Option<&str>)
        ensures
            r is Some <==> is_item_at(self.menu(), index as int),
            r matches Some(t) ==> t@ == self.menu()[index as int]->Item_title@,
    {
        if index < self.entries.len() {
            match &self.entries[index] {
                MenuEntry::Item { title, action: _ } => Some(title.as_str()),
                MenuEntry::Separator => None,
            }
        } else {
            None
        }
    }

    /// The action that a click on position `index` runs, if any.
    pub fn item_action(&self, index: usize) -> (r: Option<&B>)
        ensures
            match r {
                Some(b) => action_at(self.menu(), index as int) == Some(*b),
                None => action_at(self.menu(), index as int) is None,
            },
    {
        if index < self.entries.len() {
            match &self.entries[index] {
                MenuEntry::Item { title: _, action } => action.as_ref(),
                MenuEntry::Separator => None,
            }
        } else {
            None
        }
    }
}

/// After the item of `key` is bound to `cb`, a click on it runs `cb` and
/// nothing else; a click anywhere else runs what it ran before.
pub proof fn lemma_click_after_rebind<B>(menu: Seq<MenuEntry<B>>, key: SystemTrayMenuItemKey, cb: B)
    requires
        is_item_at(menu, key_index(key)),
    ensures
        action_at(rebound(menu, key_index(key), cb), key_index(key)) == Some(cb),
        forall|i: int|
            i != key_index(key) ==> #[trigger] action_at(rebound(menu, key_index(key), cb), i)
                == action_at(menu, i),
{
}

} // verus!
