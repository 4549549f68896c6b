//! The selection flow: mapping the picker's answer on a menu to the
//! next step — cancel, ask for confirmation, or run a command.
use vstd::prelude::*;
use vstd::string::StrSliceExecFns;

use crate::error::SelectionError;
use crate::menu::enabled_items;
use crate::menu::spec_confirmation_menu;
use crate::menu::ItemView;
use crate::menu::Menu;
use crate::text::parse_usize;
use crate::text::spec_all_digits;
use crate::text::spec_digits_val;

verus! {

/// The step a picker answer leads to.
#[derive(Debug)]
pub enum SelectionOutcome {
    /// The user cancelled; leave without an error.
    Cancelled,
    /// The chosen item asks for confirmation: show this menu first.
    Confirm(Menu),
    /// Run this command.
    Run(String),
}

/// Maps the picker's answer to the next step: an empty answer is a
/// cancellation, a non-numeric one or an index past the enabled items
/// is an error, and an item asking for confirmation yields its yes/no
/// menu instead of its command.
pub fn resolve_selection(menu: &Menu, selection: &str) -> (r: Result<
    SelectionOutcome,
    SelectionError,
>)
    ensures
        ({
            let en = enabled_items(menu@.items);
            if selection@.len() == 0 {
                r matches Ok(SelectionOutcome::Cancelled)
            } else if !(spec_all_digits(selection@) && spec_digits_val(selection@) <= usize::MAX) {
                r matches Err(SelectionError::NotNumeric { input }) && input@ == selection@
            } else if spec_digits_val(selection@) >= en.len() {
                r matches Err(SelectionError::OutOfRange { input }) && input@ == selection@
            } else {
                let item = en[spec_digits_val(selection@) as int];
                if item.requires_confirmation {
                    r matches Ok(SelectionOutcome::Confirm(conf)) && conf@ == spec_confirmation_menu(
                        item,
                    )
                } else {
                    r matches Ok(SelectionOutcome::Run(cmd)) && cmd@ == item.cmd
                }
            }
        }),
{
    if selection.is_empty() {
        return Ok(SelectionOutcome::Cancelled);
    }
    let n = match parse_usize(selection) {
        Some(v) => v,
        None => {
            return Err(SelectionError::NotNumeric { input: selection.to_owned() });
        },
    };
    match menu.nth(n) {
        None => Err(SelectionError::OutOfRange { input: selection.to_owned() }),
        Some(item) => {
            if item.requires_confirmation() {
                Ok(SelectionOutcome::Confirm(Menu::new_confirmation(item)))
            } else {
                Ok(SelectionOutcome::Run(item.cmd()))
            }
        },
    }
}

/// A confirmation menu resolves in one step: every entry it shows has
/// the confirmation flag cleared, so no second confirmation can arise.
pub proof fn lemma_confirmation_resolves_once(item: ItemView, i: int)
    requires
        0 <= i < enabled_items(spec_confirmation_menu(item).items).len(),
    ensures
        !enabled_items(spec_confirmation_menu(item).items)[i].requires_confirmation,
{
    let items = spec_confirmation_menu(item).items;
    let s1 = items.drop_last();
    assert(s1.drop_last() =~= Seq::<ItemView>::empty());
    assert(enabled_items(s1.drop_last()) =~= Seq::<ItemView>::empty());
    assert(enabled_items(s1) =~= seq![items[0]]);
    assert(enabled_items(items) =~= seq![items[0], items[1]]);
}

} // verus!
