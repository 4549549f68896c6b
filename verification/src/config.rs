//! Config data as plain key/value lists, the boolean field parser, and
//! the warnings a merge would print for unknown keys on new items.
use vstd::prelude::*;

use crate::menu::index_of_id;
use crate::menu::Menu;
use crate::text::str_eq;

verus! {

/// One field of an item table: a key and its raw string value.
#[derive(Debug, Clone)]
pub struct KeyValue {
    pub key: String,
    pub value: String,
}

/// The mathematical value of a `KeyValue`.
#[verifier::ext_equal]
pub ghost struct KeyValueView {
    pub key: Seq<char>,
    pub value: Seq<char>,
}

impl View for KeyValue {
    type V = KeyValueView;

    open spec fn view(&self) -> KeyValueView {
        KeyValueView { key: self.key@, value: self.value@ }
    }
}

impl DeepView for KeyValue {
    type V = KeyValueView;

    open spec fn deep_view(&self) -> KeyValueView {
        self.view()
    }
}

impl KeyValue {
    pub fn new(key: &str, value: &str) -> (r: KeyValue)
        ensures
            r@ == (KeyValueView { key: key@, value: value@ }),
    {
        KeyValue { key: key.to_owned(), value: value.to_owned() }
    }
}

/// One item table of the config: the item id and its fields, in the
/// order the config gave them.
#[derive(Debug, Clone)]
pub struct ItemConfig {
    pub id: String,
    pub fields: Vec<KeyValue>,
}

/// The mathematical value of an `ItemConfig`.
#[verifier::ext_equal]
pub ghost struct ItemConfigView {
    pub id: Seq<char>,
    pub fields: Seq<KeyValueView>,
}

impl View for ItemConfig {
    type V = ItemConfigView;

    open spec fn view(&self) -> ItemConfigView {
        ItemConfigView { id: self.id@, fields: self.fields.deep_view() }
    }
}

impl DeepView for ItemConfig {
    type V = ItemConfigView;

    open spec fn deep_view(&self) -> ItemConfigView {
        self.view()
    }
}

/// Overrides for the picker adapter.
#[derive(Debug, Clone)]
pub struct WofiConfig {
    pub path: Option<String>,
    pub extra_args: Option<String>,
}

/// The mathematical value of a `WofiConfig`.
#[verifier::ext_equal]
pub ghost struct WofiConfigView {
    pub path: Option<Seq<char>>,
    pub extra_args: Option<Seq<char>>,
}

impl View for WofiConfig {
    type V = WofiConfigView;

    open spec fn view(&self) -> WofiConfigView {
        WofiConfigView { path: self.path.deep_view(), extra_args: self.extra_args.deep_view() }
    }
}

impl DeepView for WofiConfig {
    type V = WofiConfigView;

    open spec fn deep_view(&self) -> WofiConfigView {
        self.view()
    }
}

/// A whole config file: picker overrides and item tables.
#[derive(Debug, Clone)]
pub struct Config {
    pub wofi: Option<WofiConfig>,
    pub menu: Option<Vec<ItemConfig>>,
}

/// The mathematical value of a `Config`.
#[verifier::ext_equal]
pub ghost struct ConfigView {
    pub wofi: Option<WofiConfigView>,
    pub menu: Option<Seq<ItemConfigView>>,
}

impl View for Config {
    type V = ConfigView;

    open spec fn view(&self) -> ConfigView {
        ConfigView { wofi: self.wofi.deep_view(), menu: self.menu.deep_view() }
    }
}

impl DeepView for Config {
    type V = ConfigView;

    open spec fn deep_view(&self) -> ConfigView {
        self.view()
    }
}

/// The boolean readings of the two exact words a config value may use.
pub open spec fn spec_parse_bool(s: Seq<char>) -> Option<bool> {
    if s == "true"@ {
        Some(true)
    } else if s == "false"@ {
        Some(false)
    } else {
        None
    }
}

pub fn parse_bool(s: &str) -> (r: Option<bool>)
    ensures
        r == spec_parse_bool(s@),
{
    if str_eq(s, "true") {
        Some(true)
    } else if str_eq(s, "false") {
        Some(false)
    } else {
        None
    }
}

/// The first index holding the given key, or -1.
pub open spec fn spec_field_index(fields: Seq<KeyValueView>, key: Seq<char>) -> int
    decreases fields.len(),
{
    if fields.len() == 0 {
        -1
    } else if fields[0].key == key {
        0
    } else {
        let r = spec_field_index(fields.drop_first(), key);
        if r < 0 {
            -1
        } else {
            r + 1
        }
    }
}

/// The value under the given key, where the list holds one.
pub open spec fn spec_field_lookup(fields: Seq<KeyValueView>, key: Seq<char>) -> Option<Seq<char>> {
    let idx = spec_field_index(fields, key);
    if idx < 0 {
        None
    } else {
        Some(fields[idx].value)
    }
}

proof fn lemma_field_index_first(fields: Seq<KeyValueView>, key: Seq<char>, k: int)
    requires
        0 <= k < fields.len(),
        fields[k].key == key,
        forall|j: int| 0 <= j < k ==> (#[trigger] fields[j]).key != key,
    ensures
        spec_field_index(fields, key) == k,
    decreases k,
{
    if k > 0 {
        lemma_field_index_first(fields.drop_first(), key, k - 1);
    }
}

proof fn lemma_field_index_none(fields: Seq<KeyValueView>, key: Seq<char>)
    requires
        forall|j: int| 0 <= j < fields.len() ==> (#[trigger] fields[j]).key != key,
    ensures
        spec_field_index(fields, key) == -1,
    decreases fields.len(),
{
    if fields.len() > 0 {
        lemma_field_index_none(fields.drop_first(), key);
    }
}

/// The value under the first occurrence of `key`, if any.
pub fn field_lookup<'a>(fields: &'a Vec<KeyValue>, key: &str) -> (r: Option<&'a String>)
    ensures
        match r {
            Some(v) => spec_field_lookup(fields.deep_view(), key@) == Some(v@),
            None => spec_field_lookup(fields.deep_view(), key@) is None,
        },
{
    let len = fields.len();
    let mut i: usize = 0;
    while i < len
        invariant
            i <= len,
            len == fields@.len(),
            forall|j: int| 0 <= j < i ==> (#[trigger] fields.deep_view()[j]).key != key@,
        decreases len - i,
    {
        if str_eq(fields[i].key.as_str(), key) {
            proof {
                lemma_field_index_first(fields.deep_view(), key@, i as int);
            }
            return Some(&fields[i].value);
        }
        i += 1;
    }
    proof {
        lemma_field_index_none(fields.deep_view(), key@);
    }
    None
}

/// Whether an item table answers to this key.
pub open spec fn spec_known_item_key(key: Seq<char>) -> bool {
    key == "title"@ || key == "icon"@ || key == "cmd"@ || key == "requires_confirmation"@ || key
        == "enabled"@
}

pub fn known_item_key(key: &str) -> (r: bool)
    ensures
        r == spec_known_item_key(key@),
{
    str_eq(key, "title") || str_eq(key, "icon") || str_eq(key, "cmd") || str_eq(
        key,
        "requires_confirmation",
    ) || str_eq(key, "enabled")
}

/// A non-fatal notice: a key of a new item table that no field answers
/// to, skipped when the item was built.
#[derive(Debug, Clone)]
pub struct Warning {
    pub id: String,
    pub key: String,
}

/// The mathematical value of a `Warning`.
#[verifier::ext_equal]
pub ghost struct WarningView {
    pub id: Seq<char>,
    pub key: Seq<char>,
}

impl View for Warning {
    type V = WarningView;

    open spec fn view(&self) -> WarningView {
        WarningView { id: self.id@, key: self.key@ }
    }
}

impl DeepView for Warning {
    type V = WarningView;

    open spec fn deep_view(&self) -> WarningView {
        self.view()
    }
}

/// The unknown keys of one new item table, in order.
pub open spec fn spec_unknown_warnings(id: Seq<char>, fields: Seq<KeyValueView>) -> Seq<WarningView>
    decreases fields.len(),
{
    if fields.len() == 0 {
        Seq::empty()
    } else {
        let rest = spec_unknown_warnings(id, fields.drop_last());
        if !spec_known_item_key(fields.last().key) {
            rest.push(WarningView { id, key: fields.last().key })
        } else {
            rest
        }
    }
}

/// The warnings one entry produces: none where the menu already holds
/// the id (unknown keys are then hard errors), else one per unknown key.
pub open spec fn spec_entry_warnings(m: crate::menu::MenuView, e: ItemConfigView) -> Seq<
    WarningView,
> {
    if index_of_id(m.items, e.id) >= 0 {
        Seq::empty()
    } else {
        spec_unknown_warnings(e.id, e.fields)
    }
}

/// All warnings a merge of these entries into this menu would produce.
pub open spec fn spec_warnings(m: crate::menu::MenuView, entries: Seq<ItemConfigView>) -> Seq<
    WarningView,
>
    decreases entries.len(),
{
    if entries.len() == 0 {
        Seq::empty()
    } else {
        spec_warnings(m, entries.drop_last()) + spec_entry_warnings(m, entries.last())
    }
}

/// The unknown-key notices that merging these entries would print:
/// non-fatal by design, so they are handed back as data.
pub fn collect_warnings(menu: &Menu, entries: &Vec<ItemConfig>) -> (r: Vec<Warning>)
    ensures
        r.deep_view() == spec_warnings(menu@, entries.deep_view()),
{
    let n = entries.len();
    let mut out: Vec<Warning> = Vec::new();
    let mut i: usize = 0;
    proof {
        assert(out.deep_view() =~~= spec_warnings(menu@, entries.deep_view().subrange(0, 0)));
    }
    while i < n
        invariant
            i <= n,
            n == entries@.len(),
            out.deep_view() == spec_warnings(menu@, entries.deep_view().subrange(0, i as int)),
        decreases n - i,
    {
        proof {
            assert(entries.deep_view().subrange(0, i + 1).drop_last() =~= entries.deep_view().subrange(
                0,
                i as int,
            ));
            assert(entries.deep_view().subrange(0, i + 1).last() == entries.deep_view()[i as int]);
        }
        let entry = &entries[i];
        if menu.item(entry.id.as_str()).is_none() {
            let m = entry.fields.len();
            let mut k: usize = 0;
            while k < m
                invariant
                    k <= m,
                    m == entry.fields@.len(),
                    entry@ == entries.deep_view()[i as int],
                    i < n,
                    n == entries@.len(),
                    index_of_id(menu@.items, entry@.id) < 0,
                    out.deep_view() == spec_warnings(
                        menu@,
                        entries.deep_view().subrange(0, i as int),
                    ) + spec_unknown_warnings(entry@.id, entry.fields.deep_view().subrange(0, k as int)),
                decreases m - k,
            {
                proof {
                    assert(entry.fields.deep_view().subrange(0, k + 1).drop_last() =~= entry.fields.deep_view().subrange(
                        0,
                        k as int,
                    ));
                    assert(entry.fields.deep_view().subrange(0, k + 1).last() == entry.fields.deep_view()[k as int]);
                }
                let ghost w_i = spec_warnings(menu@, entries.deep_view().subrange(0, i as int));
                let ghost u_k = spec_unknown_warnings(
                    entry@.id,
                    entry.fields.deep_view().subrange(0, k as int),
                );
                let ghost u_k1 = spec_unknown_warnings(
                    entry@.id,
                    entry.fields.deep_view().subrange(0, k + 1),
                );
                proof {
                    if spec_known_item_key(entry.fields.deep_view()[k as int].key) {
                        assert(u_k1 == u_k);
                    } else {
                        assert(u_k1 == u_k.push(
                            WarningView {
                                id: entry@.id,
                                key: entry.fields.deep_view()[k as int].key,
                            },
                        ));
                    }
                }
                if !known_item_key(entry.fields[k].key.as_str()) {
                    let w = Warning {
                        id: entry.id.clone(),
                        key: entry.fields[k].key.clone(),
                    };
                    proof {
                        assert(w@ == (WarningView {
                            id: entry@.id,
                            key: entry.fields.deep_view()[k as int].key,
                        }));
                    }
                    out.push(w);
                    proof {
                        assert(out.deep_view() =~~= (w_i + u_k).push(w@));
                        assert((w_i + u_k).push(w@) =~~= w_i + u_k1);
                    }
                }
                proof {
                    assert(out.deep_view() =~~= w_i + u_k1);
                }
                k += 1;
            }
            proof {
                assert(entry.fields.deep_view().subrange(0, m as int) =~= entry@.fields);
                assert(out.deep_view() =~~= spec_warnings(
                    menu@,
                    entries.deep_view().subrange(0, i + 1),
                ));
            }
        } else {
            proof {
                assert(out.deep_view() =~~= spec_warnings(
                    menu@,
                    entries.deep_view().subrange(0, i + 1),
                ));
            }
        }
        i += 1;
    }
    proof {
        assert(entries.deep_view().subrange(0, n as int) =~= entries.deep_view());
    }
    out
}

} // verus!
