//! The menu model: items, menus, enabled-order lookup, rendering to the
//! picker's line format, and the confirmation sub-menu builder.
use vstd::prelude::*;
use vstd::string::StrSliceExecFns;
use vstd::string::StringExecFns;

use crate::config::field_lookup;
use crate::config::parse_bool;
use crate::config::spec_field_lookup;
use crate::config::spec_parse_bool;
use crate::config::ItemConfig;
use crate::config::ItemConfigView;
use crate::config::KeyValue;
use crate::config::KeyValueView;
use crate::error::ConfigError;
use crate::error::ConfigErrorView;
use crate::icons;
use crate::text::push_char;
use crate::text::str_eq;

verus! {

/// A single menu entry.
#[derive(Debug)]
pub struct Item {
    id: String,
    title: String,
    icon: char,
    cmd: String,
    requires_confirmation: bool,
    enabled: bool,
}

/// The mathematical value of an `Item`.
#[verifier::ext_equal]
pub ghost struct ItemView {
    pub id: Seq<char>,
    pub title: Seq<char>,
    pub icon: char,
    pub cmd: Seq<char>,
    pub requires_confirmation: bool,
    pub enabled: bool,
}

impl View for Item {
    type V = ItemView;

    closed spec fn view(&self) -> ItemView {
        ItemView {
            id: self.id@,
            title: self.title@,
            icon: self.icon,
            cmd: self.cmd@,
            requires_confirmation: self.requires_confirmation,
            enabled: self.enabled,
        }
    }
}

impl DeepView for Item {
    type V = ItemView;

    open spec fn deep_view(&self) -> ItemView {
        self.view()
    }
}

impl Clone for Item {
    fn clone(&self) -> (r: Self)
        ensures
            r@ == self@,
    {
        Item {
            id: self.id.clone(),
            title: self.title.clone(),
            icon: self.icon,
            cmd: self.cmd.clone(),
            requires_confirmation: self.requires_confirmation,
            enabled: self.enabled,
        }
    }
}

/// The markup wrapper asking the picker for a large font.
pub open spec fn spec_span(s: Seq<char>) -> Seq<char> {
    "<span font_size=\"large\">"@ + s + "</span>"@
}

/// One rendered menu line: icon and title in markup spans, guarded by
/// bidirectional control characters.
pub open spec fn spec_render_item(i: ItemView) -> Seq<char> {
    seq![icons::LRM] + spec_span(seq![i.icon]) + "  "@ + seq![icons::FSI] + spec_span(i.title)
        + seq![icons::PDI]
}

/// The flags-and-title line `describe` produces for an item.
pub open spec fn spec_describe_item(i: ItemView) -> Seq<char> {
    i.id + ": "@ + i.title + " [disabled: "@ + spec_bool_str(!i.enabled) + ", confirmation: "@
        + spec_bool_str(i.requires_confirmation) + "]"@
}

pub open spec fn spec_bool_str(b: bool) -> Seq<char> {
    if b {
        "true"@
    } else {
        "false"@
    }
}

impl Item {
    /// A fresh item; `enabled` defaults to true.
    pub fn new(id: &str, title: &str, icon: char, cmd: &str, requires_confirmation: bool) -> (r:
        Item)
        ensures
            r@ == (ItemView {
                id: id@,
                title: title@,
                icon,
                cmd: cmd@,
                requires_confirmation,
                enabled: true,
            }),
    {
        Item {
            id: String::from_str(id),
            title: String::from_str(title),
            icon,
            cmd: String::from_str(cmd),
            requires_confirmation,
            enabled: true,
        }
    }

    pub fn id(&self) -> (r: &String)
        ensures
            r@ == self@.id,
    {
        &self.id
    }

    pub fn title(&self) -> (r: &String)
        ensures
            r@ == self@.title,
    {
        &self.title
    }

    pub fn icon(&self) -> (r: char)
        ensures
            r == self@.icon,
    {
        self.icon
    }

    pub fn cmd(&self) -> (r: String)
        ensures
            r@ == self@.cmd,
    {
        self.cmd.clone()
    }

    pub fn requires_confirmation(&self) -> (r: bool)
        ensures
            r == self@.requires_confirmation,
    {
        self.requires_confirmation
    }

    pub fn enabled(&self) -> (r: bool)
        ensures
            r == self@.enabled,
    {
        self.enabled
    }

    pub fn set_confirmation(&mut self, confirm: bool)
        ensures
            final(self)@ == (ItemView { requires_confirmation: confirm, ..old(self)@ }),
    {
        self.requires_confirmation = confirm;
    }

    pub fn disable(&mut self)
        ensures
            final(self)@ == (ItemView { enabled: false, ..old(self)@ }),
    {
        self.enabled = false;
    }

    /// The line fed to the picker for this item.
    pub fn render(&self) -> (r: String)
        ensures
            r@ == spec_render_item(self@),
    {
        let mut s = String::new();
        push_char(&mut s, icons::LRM);
        s.append("<span font_size=\"large\">");
        push_char(&mut s, self.icon);
        s.append("</span>");
        s.append("  ");
        push_char(&mut s, icons::FSI);
        s.append("<span font_size=\"large\">");
        s.append(self.title.as_str());
        s.append("</span>");
        push_char(&mut s, icons::PDI);
        proof {
            assert(s@ =~= spec_render_item(self@));
        }
        s
    }

    /// The id, title and flags of this item on one line, as shown by the
    /// item listing.
    pub fn describe(&self) -> (r: String)
        ensures
            r@ == spec_describe_item(self@),
    {
        let mut s = String::new();
        s.append(self.id.as_str());
        s.append(": ");
        s.append(self.title.as_str());
        s.append(" [disabled: ");
        s.append(if self.enabled {
            "false"
        } else {
            "true"
        });
        s.append(", confirmation: ");
        s.append(if self.requires_confirmation {
            "true"
        } else {
            "false"
        });
        s.append("]");
        proof {
            assert(s@ =~= spec_describe_item(self@));
        }
        s
    }
}

/// The enabled items of `items`, in insertion order.
pub open spec fn enabled_items(items: Seq<ItemView>) -> Seq<ItemView>
    decreases items.len(),
{
    if items.len() == 0 {
        Seq::empty()
    } else {
        let rest = enabled_items(items.drop_last());
        if items.last().enabled {
            rest.push(items.last())
        } else {
            rest
        }
    }
}

pub proof fn lemma_enabled_items_len(items: Seq<ItemView>)
    ensures
        enabled_items(items).len() <= items.len(),
    decreases items.len(),
{
    if items.len() > 0 {
        lemma_enabled_items_len(items.drop_last());
    }
}

/// The enabled items of a prefix are a prefix of the enabled items.
pub proof fn lemma_enabled_items_prefix(items: Seq<ItemView>, i: int, j: int)
    requires
        0 <= i <= j <= items.len(),
    ensures
        enabled_items(items.subrange(0, i)).is_prefix_of(enabled_items(items.subrange(0, j))),
    decreases j - i,
{
    if i < j {
        lemma_enabled_items_prefix(items, i, j - 1);
        assert(items.subrange(0, j).drop_last() =~= items.subrange(0, j - 1));
    }
}

/// The first index holding an item with the given id, or -1.
pub open spec fn index_of_id(items: Seq<ItemView>, id: Seq<char>) -> int
    decreases items.len(),
{
    if items.len() == 0 {
        -1
    } else if items[0].id == id {
        0
    } else {
        let r = index_of_id(items.drop_first(), id);
        if r < 0 {
            -1
        } else {
            r + 1
        }
    }
}

pub proof fn lemma_index_of_id_first(items: Seq<ItemView>, id: Seq<char>, k: int)
    requires
        0 <= k < items.len(),
        items[k].id == id,
        forall|j: int| 0 <= j < k ==> (#[trigger] items[j]).id != id,
    ensures
        index_of_id(items, id) == k,
    decreases k,
{
    if k > 0 {
        lemma_index_of_id_first(items.drop_first(), id, k - 1);
    }
}

pub proof fn lemma_index_of_id_none(items: Seq<ItemView>, id: Seq<char>)
    requires
        forall|j: int| 0 <= j < items.len() ==> (#[trigger] items[j]).id != id,
    ensures
        index_of_id(items, id) == -1,
    decreases items.len(),
{
    if items.len() > 0 {
        lemma_index_of_id_none(items.drop_first(), id);
    }
}

/// An ordered collection of items, shown to the user under a title.
#[derive(Debug)]
pub struct Menu {
    title: String,
    items: Vec<Item>,
}

/// The mathematical value of a `Menu`.
#[verifier::ext_equal]
pub ghost struct MenuView {
    pub title: Seq<char>,
    pub items: Seq<ItemView>,
}

impl View for Menu {
    type V = MenuView;

    closed spec fn view(&self) -> MenuView {
        MenuView { title: self.title@, items: self.items.deep_view() }
    }
}

impl Menu {
    pub fn new(title: &str, items: Vec<Item>) -> (r: Menu)
        ensures
            r@ == (MenuView { title: title@, items: items.deep_view() }),
    {
        Menu { title: String::from_str(title), items }
    }

    pub fn title(&self) -> (r: &String)
        ensures
            r@ == self@.title,
    {
        &self.title
    }

    /// Appends an item at the end, after every existing one.
    pub fn add_item(&mut self, item: Item)
        ensures
            final(self)@.title == old(self)@.title,
            final(self)@.items =~= old(self)@.items.push(item@),
    {
        self.items.push(item);
    }

    /// The number of enabled items.
    pub fn size(&self) -> (r: usize)
        ensures
            r == enabled_items(self@.items).len(),
    {
        let len = self.items.len();
        let mut count: usize = 0;
        let mut i: usize = 0;
        while i < len
            invariant
                i <= len,
                count <= i,
                len == self.items@.len(),
                count == enabled_items(self.items.deep_view().subrange(0, i as int)).len(),
            decreases len - i,
        {
            proof {
                assert(self.items.deep_view().subrange(0, i + 1).drop_last() =~= self.items.deep_view().subrange(
                    0,
                    i as int,
                ));
                assert(self.items.deep_view().subrange(0, i + 1).last() == self.items.deep_view()[i as int]);
            }
            if self.items[i].enabled {
                count += 1;
            }
            i += 1;
        }
        proof {
            assert(self.items.deep_view().subrange(0, len as int) =~= self@.items);
        }
        count
    }

    /// The n-th enabled item in insertion order; disabled items do not
    /// consume an index slot.
    pub fn nth(&self, n: usize) -> (r: Option<&Item>)
        ensures
            match r {
                Some(item) => n < enabled_items(self@.items).len() && item@ == enabled_items(
                    self@.items,
                )[n as int],
                None => n >= enabled_items(self@.items).len(),
            },
    {
        let len = self.items.len();
        let mut seen: usize = 0;
        let mut i: usize = 0;
        while i < len
            invariant
                i <= len,
                seen <= n,
                len == self.items@.len(),
                seen == enabled_items(self.items.deep_view().subrange(0, i as int)).len(),
            decreases len - i,
        {
            proof {
                assert(self.items.deep_view().subrange(0, i + 1).drop_last() =~= self.items.deep_view().subrange(
                    0,
                    i as int,
                ));
                assert(self.items.deep_view().subrange(0, i + 1).last() == self.items.deep_view()[i as int]);
            }
            if self.items[i].enabled {
                if seen == n {
                    proof {
                        lemma_enabled_items_prefix(self.items.deep_view(), i + 1, len as int);
                        assert(self.items.deep_view().subrange(0, len as int) =~= self@.items);
                        assert(enabled_items(self.items.deep_view().subrange(0, i + 1))[n as int]
                            == self.items.deep_view()[i as int]);
                    }
                    return Some(&self.items[i]);
                }
                seen += 1;
            }
            i += 1;
        }
        proof {
            assert(self.items.deep_view().subrange(0, len as int) =~= self@.items);
        }
        None
    }

    /// Identity-based lookup; enabled state is ignored.
    pub fn item(&self, id: &str) -> (r: Option<&Item>)
        ensures
            match r {
                Some(it) => index_of_id(self@.items, id@) >= 0 && it@ == self@.items[index_of_id(
                    self@.items,
                    id@,
                )],
                None => index_of_id(self@.items, id@) == -1,
            },
    {
        let len = self.items.len();
        let mut i: usize = 0;
        while i < len
            invariant
                i <= len,
                len == self.items@.len(),
                forall|j: int| 0 <= j < i ==> (#[trigger] self.items.deep_view()[j]).id != id@,
            decreases len - i,
        {
            if str_eq(self.items[i].id.as_str(), id) {
                proof {
                    lemma_index_of_id_first(self.items.deep_view(), id@, i as int);
                }
                return Some(&self.items[i]);
            }
            i += 1;
        }
        proof {
            lemma_index_of_id_none(self.items.deep_view(), id@);
        }
        None
    }

    /// Identity-based lookup handing back a mutable item; enabled state
    /// is ignored.
    pub fn item_mut<'a>(&'a mut self, id: &str) -> (r: Option<&'a mut Item>)
        ensures
            match r {
                Some(it) => index_of_id(old(self)@.items, id@) >= 0
                    && (*it)@ == old(self)@.items[index_of_id(old(self)@.items, id@)]
                    && final(self)@.title == old(self)@.title
                    && final(self)@.items =~= old(self)@.items.update(
                    index_of_id(old(self)@.items, id@),
                    (*final(it))@,
                ),
                None => index_of_id(old(self)@.items, id@) == -1 && final(self)@ == old(self)@,
            },
    {
        let len = self.items.len();
        let mut i: usize = 0;
        while i < len
            invariant
                i <= len,
                *self == *old(self),
                len == self.items@.len(),
                forall|j: int| 0 <= j < i ==> (#[trigger] self.items.deep_view()[j]).id != id@,
            decreases len - i,
        {
            if str_eq(self.items[i].id.as_str(), id) {
                proof {
                    lemma_index_of_id_first(self.items.deep_view(), id@, i as int);
                }
                return Some(&mut self.items[i]);
            }
            i += 1;
        }
        proof {
            lemma_index_of_id_none(self.items.deep_view(), id@);
        }
        None
    }

    /// The two-entry yes/no menu for a selected item: confirming carries
    /// the item's command, declining carries an empty one; neither asks
    /// for confirmation again.
    pub fn new_confirmation(item: &Item) -> (r: Menu)
        ensures
            r@ == spec_confirmation_menu(item@),
    {
        let mut yes_title = String::from_str("Yes, ");
        yes_title.append(item.title.as_str());
        let yes = Item::new("yes", yes_title.as_str(), item.icon, item.cmd.as_str(), false);
        let no = Item::new("no", "No, cancel", icons::CANCEL, "", false);
        let mut items: Vec<Item> = Vec::new();
        items.push(yes);
        items.push(no);
        proof {
            reveal_strlit("");
            assert(""@ =~= Seq::<char>::empty());
        }
        let r = Menu::new("Are you sure?", items);
        proof {
            assert(r@ =~~= spec_confirmation_menu(item@));
        }
        r
    }

    /// The rendered menu body: each enabled item's line, joined with
    /// newlines, in insertion order.
    pub fn render(&self) -> (r: String)
        ensures
            r@ == spec_render_menu(self@),
    {
        let len = self.items.len();
        let mut out = String::new();
        let mut any = false;
        let mut i: usize = 0;
        while i < len
            invariant
                i <= len,
                len == self.items@.len(),
                any == (enabled_items(self.items.deep_view().subrange(0, i as int)).len() > 0),
                out@ == spec_render_lines(
                    enabled_items(self.items.deep_view().subrange(0, i as int)),
                ),
            decreases len - i,
        {
            proof {
                assert(self.items.deep_view().subrange(0, i + 1).drop_last() =~= self.items.deep_view().subrange(
                    0,
                    i as int,
                ));
                assert(self.items.deep_view().subrange(0, i + 1).last() == self.items.deep_view()[i as int]);
            }
            if self.items[i].enabled {
                if any {
                    push_char(&mut out, '\n');
                }
                let line = self.items[i].render();
                out.append(line.as_str());
                any = true;
                proof {
                    let en = enabled_items(self.items.deep_view().subrange(0, i + 1));
                    assert(en.drop_last() == enabled_items(
                        self.items.deep_view().subrange(0, i as int),
                    ));
                    assert(out@ =~= spec_render_lines(en));
                }
            }
            i += 1;
        }
        proof {
            assert(self.items.deep_view().subrange(0, len as int) =~= self@.items);
        }
        out
    }

    /// One describing line for every item, disabled ones included, in
    /// insertion order.
    pub fn describe_items(&self) -> (r: Vec<String>)
        ensures
            r.deep_view().len() == self@.items.len(),
            forall|j: int|
                0 <= j < self@.items.len() ==> r.deep_view()[j] == spec_describe_item(
                    #[trigger] self@.items[j],
                ),
    {
        let len = self.items.len();
        let mut out: Vec<String> = Vec::new();
        let mut i: usize = 0;
        while i < len
            invariant
                i <= len,
                len == self.items@.len(),
                out.deep_view().len() == i,
                forall|j: int|
                    0 <= j < i ==> out.deep_view()[j] == spec_describe_item(
                        #[trigger] self.items.deep_view()[j],
                    ),
            decreases len - i,
        {
            let line = self.items[i].describe();
            out.push(line);
            i += 1;
        }
        out
    }

    /// A restartable cursor over the enabled items.
    pub fn iter(&self) -> (r: MenuIterator<'_>)
        ensures
            r@.curr == 0,
            r@.menu == self@,
    {
        MenuIterator { curr: 0, menu: self }
    }
}

/// A single-pair merge is key-scoped: updating `enabled` with a value
/// that reads as a boolean changes that one field and nothing else.
pub proof fn lemma_merge_is_key_scoped(v: ItemView, value: Seq<char>, b: bool)
    requires
        spec_parse_bool(value) == Some(b),
    ensures
        spec_merge_fields(v, seq![KeyValueView { key: "enabled"@, value }]) == ((
            ItemView { enabled: b, ..v },
            None::<ConfigErrorView>,
        )),
{
    reveal_with_fuel(spec_merge_fields, 3);
    reveal_strlit("title");
    reveal_strlit("icon");
    reveal_strlit("cmd");
    reveal_strlit("requires_confirmation");
    reveal_strlit("enabled");
    let fields = seq![KeyValueView { key: "enabled"@, value }];
    assert(fields.drop_first() =~= Seq::<KeyValueView>::empty());
    assert(("enabled"@).len() == 7);
    assert(("title"@).len() == 5);
    assert(("icon"@).len() == 4);
    assert(("cmd"@).len() == 3);
    assert(("requires_confirmation"@).len() == 21);
    assert("enabled"@ != "title"@);
    assert("enabled"@ != "icon"@);
    assert("enabled"@ != "cmd"@);
    assert("enabled"@ != "requires_confirmation"@);
    assert(spec_apply_field(v, "enabled"@, value) == Ok::<ItemView, ConfigErrorView>(
        ItemView { enabled: b, ..v },
    ));
}

/// The confirmation menu derived from an item: "yes" keeps the item's
/// icon and command with the confirmation flag cleared, "no" carries a
/// cancel icon and an empty command.
pub open spec fn spec_confirmation_menu(item: ItemView) -> MenuView {
    MenuView {
        title: "Are you sure?"@,
        items: seq![
            ItemView {
                id: "yes"@,
                title: "Yes, "@ + item.title,
                icon: item.icon,
                cmd: item.cmd,
                requires_confirmation: false,
                enabled: true,
            },
            ItemView {
                id: "no"@,
                title: "No, cancel"@,
                icon: icons::CANCEL,
                cmd: Seq::<char>::empty(),
                requires_confirmation: false,
                enabled: true,
            },
        ],
    }
}

/// `enabled_items` is a plain filter on the enabled flag, so `size`
/// counts exactly the items with `enabled == true`.
pub proof fn lemma_enabled_items_is_filter(items: Seq<ItemView>)
    ensures
        enabled_items(items) == items.filter(|i: ItemView| i.enabled),
    decreases items.len(),
{
    reveal(Seq::filter);
    if items.len() > 0 {
        lemma_enabled_items_is_filter(items.drop_last());
    }
}

/// One rendered line per item, newline-separated.
pub open spec fn spec_render_lines(items: Seq<ItemView>) -> Seq<char>
    decreases items.len(),
{
    if items.len() == 0 {
        Seq::empty()
    } else if items.len() == 1 {
        spec_render_item(items[0])
    } else {
        spec_render_lines(items.drop_last()) + seq!['\n'] + spec_render_item(items.last())
    }
}

pub open spec fn spec_render_menu(m: MenuView) -> Seq<char> {
    spec_render_lines(enabled_items(m.items))
}

/// Rendering is read-only and a function of the menu state alone: two
/// menus in the same state render to the same text, however often.
pub proof fn lemma_render_deterministic(m1: MenuView, m2: MenuView)
    requires
        m1 == m2,
    ensures
        spec_render_menu(m1) == spec_render_menu(m2),
{
}

/// A cursor handing out clones of the enabled items, in order.
pub struct MenuIterator<'a> {
    curr: usize,
    menu: &'a Menu,
}

/// The mathematical value of a `MenuIterator`.
#[verifier::ext_equal]
pub ghost struct MenuIteratorView {
    pub curr: nat,
    pub menu: MenuView,
}

impl<'a> View for MenuIterator<'a> {
    type V = MenuIteratorView;

    closed spec fn view(&self) -> MenuIteratorView {
        MenuIteratorView { curr: self.curr as nat, menu: self.menu@ }
    }
}

impl<'a> MenuIterator<'a> {
    /// The next enabled item, or nothing once they are exhausted.
    pub fn next(&mut self) -> (r: Option<Item>)
        ensures
            final(self)@.menu == old(self)@.menu,
            match r {
                Some(item) => old(self)@.curr < enabled_items(old(self)@.menu.items).len()
                    && item@ == enabled_items(old(self)@.menu.items)[old(self)@.curr as int]
                    && final(self)@.curr == old(self)@.curr + 1,
                None => old(self)@.curr >= enabled_items(old(self)@.menu.items).len()
                    && final(self)@.curr == old(self)@.curr,
            },
    {
        let next = self.menu.nth(self.curr);
        match next {
            Some(item) => {
                let cloned = item.clone();
                let total = self.menu.items.len();
                proof {
                    lemma_enabled_items_len(self.menu@.items);
                }
                self.curr = self.curr + 1;
                Some(cloned)
            },
            None => None,
        }
    }
}


/// The item a fresh config table yields: `title` and `cmd` are owed,
/// the icon must be a non-empty string, and the two flags must read as
/// booleans where present, falling back to no confirmation and enabled.
pub open spec fn spec_item_from_config(id: Seq<char>, fields: Seq<KeyValueView>) -> Result<
    ItemView,
    ConfigErrorView,
> {
    if spec_field_lookup(fields, "title"@) is None {
        Err(ConfigErrorView::MissingField { id, field: "title"@ })
    } else if spec_field_lookup(fields, "cmd"@) is None {
        Err(ConfigErrorView::MissingField { id, field: "cmd"@ })
    } else if spec_field_lookup(fields, "icon"@) is None {
        Err(ConfigErrorView::InvalidIcon { id })
    } else if spec_field_lookup(fields, "icon"@)->0.len() == 0 {
        Err(ConfigErrorView::InvalidIcon { id })
    } else {
        let rc = match spec_field_lookup(fields, "requires_confirmation"@) {
            Option::None => Some(false),
            Option::Some(v) => spec_parse_bool(v),
        };
        let en = match spec_field_lookup(fields, "enabled"@) {
            Option::None => Some(true),
            Option::Some(v) => spec_parse_bool(v),
        };
        if rc is None {
            Err(ConfigErrorView::InvalidBoolean {
                value: spec_field_lookup(fields, "requires_confirmation"@)->0,
            })
        } else if en is None {
            Err(ConfigErrorView::InvalidBoolean { value: spec_field_lookup(fields, "enabled"@)->0 })
        } else {
            Ok(ItemView {
                id,
                title: spec_field_lookup(fields, "title"@)->0,
                icon: spec_field_lookup(fields, "icon"@)->0[0],
                cmd: spec_field_lookup(fields, "cmd"@)->0,
                requires_confirmation: rc->0,
                enabled: en->0,
            })
        }
    }
}

/// What one key/value pair does to an item: the recognized keys write
/// their field, anything else is a hard error.
pub open spec fn spec_apply_field(v: ItemView, key: Seq<char>, value: Seq<char>) -> Result<
    ItemView,
    ConfigErrorView,
> {
    if key == "title"@ {
        Ok(ItemView { title: value, ..v })
    } else if key == "icon"@ {
        Ok(ItemView {
            icon: if value.len() == 0 {
                icons::LRI
            } else {
                value[0]
            },
            ..v
        })
    } else if key == "cmd"@ {
        Ok(ItemView { cmd: value, ..v })
    } else if key == "requires_confirmation"@ {
        match spec_parse_bool(value) {
            Option::Some(b) => Ok(ItemView { requires_confirmation: b, ..v }),
            Option::None => Err(ConfigErrorView::InvalidBoolean { value }),
        }
    } else if key == "enabled"@ {
        match spec_parse_bool(value) {
            Option::Some(b) => Ok(ItemView { enabled: b, ..v }),
            Option::None => Err(ConfigErrorView::InvalidBoolean { value }),
        }
    } else {
        Err(ConfigErrorView::InvalidProperty { key })
    }
}

/// Folding a field list into an item, stopping at the first bad pair:
/// the state reached so far and the error that stopped the fold, if any.
pub open spec fn spec_merge_fields(v: ItemView, fields: Seq<KeyValueView>) -> (
    ItemView,
    Option<ConfigErrorView>,
)
    decreases fields.len(),
{
    if fields.len() == 0 {
        (v, None)
    } else {
        match spec_apply_field(v, fields[0].key, fields[0].value) {
            Result::Ok(v2) => spec_merge_fields(v2, fields.drop_first()),
            Result::Err(e) => (v, Some(e)),
        }
    }
}

impl Item {
    /// Builds an item from a fresh config table. Unknown keys are
    /// ignored here; `collect_warnings` reports them.
    pub fn from_config(id: &str, fields: &Vec<KeyValue>) -> (r: Result<Item, ConfigError>)
        ensures
            match r {
                Ok(item) => spec_item_from_config(id@, fields.deep_view()) == Ok::<
                    ItemView,
                    ConfigErrorView,
                >(item@),
                Err(e) => spec_item_from_config(id@, fields.deep_view()) == Err::<
                    ItemView,
                    ConfigErrorView,
                >(e.deep_view()),
            },
    {
        let title = match field_lookup(fields, "title") {
            Some(t) => t.clone(),
            None => {
                return Err(
                    ConfigError::MissingField { id: id.to_owned(), field: "title".to_owned() },
                );
            },
        };
        let cmd = match field_lookup(fields, "cmd") {
            Some(c) => c.clone(),
            None => {
                return Err(
                    ConfigError::MissingField { id: id.to_owned(), field: "cmd".to_owned() },
                );
            },
        };
        let icon_s = match field_lookup(fields, "icon") {
            Some(s) => s,
            None => {
                return Err(ConfigError::InvalidIcon { id: id.to_owned() });
            },
        };
        if icon_s.as_str().unicode_len() == 0 {
            return Err(ConfigError::InvalidIcon { id: id.to_owned() });
        }
        let icon = icon_s.as_str().get_char(0);
        let requires_confirmation = match field_lookup(fields, "requires_confirmation") {
            None => false,
            Some(v) => match parse_bool(v.as_str()) {
                Some(b) => b,
                None => {
                    return Err(ConfigError::InvalidBoolean { value: v.clone() });
                },
            },
        };
        let enabled = match field_lookup(fields, "enabled") {
            None => true,
            Some(v) => match parse_bool(v.as_str()) {
                Some(b) => b,
                None => {
                    return Err(ConfigError::InvalidBoolean { value: v.clone() });
                },
            },
        };
        Ok(Item { id: id.to_owned(), title, icon, cmd, requires_confirmation, enabled })
    }

    /// Applies a partial update, field by field in the given order,
    /// stopping at the first bad pair; the update made so far stays.
    pub fn merge(&mut self, fields: &Vec<KeyValue>) -> (r: Result<(), ConfigError>)
        ensures
            ({
                let m = spec_merge_fields(old(self)@, fields.deep_view());
                final(self)@ == m.0 && (match r {
                    Ok(_) => m.1 is None,
                    Err(e) => m.1 == Some(e.deep_view()),
                })
            }),
    {
        let len = fields.len();
        let mut i: usize = 0;
        proof {
            assert(fields.deep_view().subrange(0, len as int) =~= fields.deep_view());
        }
        while i < len
            invariant
                i <= len,
                len == fields@.len(),
                spec_merge_fields(old(self)@, fields.deep_view()) == spec_merge_fields(
                    self@,
                    fields.deep_view().subrange(i as int, len as int),
                ),
            decreases len - i,
        {
            proof {
                assert(fields.deep_view().subrange(i as int, len as int).drop_first()
                    =~= fields.deep_view().subrange(i + 1, len as int));
                assert(fields.deep_view().subrange(i as int, len as int)[0]
                    == fields.deep_view()[i as int]);
            }
            let key = &fields[i].key;
            let value = &fields[i].value;
            if str_eq(key.as_str(), "title") {
                self.title = value.clone();
            } else if str_eq(key.as_str(), "icon") {
                if value.as_str().unicode_len() == 0 {
                    self.icon = icons::LRI;
                } else {
                    self.icon = value.as_str().get_char(0);
                }
            } else if str_eq(key.as_str(), "cmd") {
                self.cmd = value.clone();
            } else if str_eq(key.as_str(), "requires_confirmation") {
                match parse_bool(value.as_str()) {
                    Some(b) => {
                        self.requires_confirmation = b;
                    },
                    None => {
                        return Err(ConfigError::InvalidBoolean { value: value.clone() });
                    },
                }
            } else if str_eq(key.as_str(), "enabled") {
                match parse_bool(value.as_str()) {
                    Some(b) => {
                        self.enabled = b;
                    },
                    None => {
                        return Err(ConfigError::InvalidBoolean { value: value.clone() });
                    },
                }
            } else {
                return Err(ConfigError::InvalidProperty { key: key.clone() });
            }
            i += 1;
        }
        Ok(())
    }
}

/// What one config entry does to a menu: an existing id takes a field
/// merge in place, a new id appends the item the table builds.
pub open spec fn spec_menu_apply_entry(m: MenuView, e: ItemConfigView) -> (
    MenuView,
    Option<ConfigErrorView>,
) {
    let idx = index_of_id(m.items, e.id);
    if idx >= 0 {
        let f = spec_merge_fields(m.items[idx], e.fields);
        (MenuView { title: m.title, items: m.items.update(idx, f.0) }, f.1)
    } else {
        match spec_item_from_config(e.id, e.fields) {
            Result::Ok(item) => (MenuView { title: m.title, items: m.items.push(item) }, None),
            Result::Err(err) => (m, Some(err)),
        }
    }
}

/// Folding config entries into a menu, stopping at the first error.
pub open spec fn spec_menu_merge(m: MenuView, entries: Seq<ItemConfigView>) -> (
    MenuView,
    Option<ConfigErrorView>,
)
    decreases entries.len(),
{
    if entries.len() == 0 {
        (m, None)
    } else {
        let s = spec_menu_apply_entry(m, entries[0]);
        if s.1 is Some {
            s
        } else {
            spec_menu_merge(s.0, entries.drop_first())
        }
    }
}

impl Menu {
    /// Applies the config's item tables in order: existing ids are
    /// merged in place, new ids are appended; the first error stops the
    /// merge and what was already applied stays.
    pub fn merge(&mut self, entries: &Vec<ItemConfig>) -> (r: Result<(), ConfigError>)
        ensures
            ({
                let m = spec_menu_merge(old(self)@, entries.deep_view());
                final(self)@ == m.0 && (match r {
                    Ok(_) => m.1 is None,
                    Err(e) => m.1 == Some(e.deep_view()),
                })
            }),
    {
        let n = entries.len();
        let mut i: usize = 0;
        proof {
            assert(entries.deep_view().subrange(0, n as int) =~= entries.deep_view());
        }
        while i < n
            invariant
                i <= n,
                n == entries@.len(),
                spec_menu_merge(old(self)@, entries.deep_view()) == spec_menu_merge(
                    self@,
                    entries.deep_view().subrange(i as int, n as int),
                ),
            decreases n - i,
        {
            proof {
                assert(entries.deep_view().subrange(i as int, n as int).drop_first()
                    =~= entries.deep_view().subrange(i + 1, n as int));
                assert(entries.deep_view().subrange(i as int, n as int)[0]
                    == entries.deep_view()[i as int]);
            }
            let ghost m_i = self@;
            let ghost e_i = entries.deep_view()[i as int];
            let entry = &entries[i];
            match self.item_mut(entry.id.as_str()) {
                Some(it) => {
                    let res = it.merge(&entry.fields);
                    match res {
                        Ok(_) => {
                            proof {
                                assert(self@ =~~= spec_menu_apply_entry(m_i, e_i).0);
                            }
                        },
                        Err(e) => {
                            proof {
                                assert(self@ =~~= spec_menu_apply_entry(m_i, e_i).0);
                            }
                            return Err(e);
                        },
                    }
                },
                None => {
                    match Item::from_config(entry.id.as_str(), &entry.fields) {
                        Ok(item) => {
                            self.add_item(item);
                            proof {
                                assert(self@ =~~= spec_menu_apply_entry(m_i, e_i).0);
                            }
                        },
                        Err(e) => {
                            proof {
                                assert(self@ =~~= spec_menu_apply_entry(m_i, e_i).0);
                            }
                            return Err(e);
                        },
                    }
                },
            }
            i += 1;
        }
        Ok(())
    }
}

} // verus!
