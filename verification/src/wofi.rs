//! The picker adapter: the argument list handed to the external picker,
//! its config merge, and the reading of its exit status and output.
//! Spawning the process itself is left to the caller.
use vstd::prelude::*;
use vstd::string::StrSliceExecFns;
use vstd::string::StringExecFns;

use crate::config::WofiConfig;
use crate::config::WofiConfigView;
use crate::error::ConfigError;
use crate::error::PickerError;
use crate::menu::enabled_items;
use crate::menu::Menu;
use crate::text::format_usize;
use crate::text::spec_decimal;
use crate::text::spec_words;
use crate::text::split_words;

verus! {

/// The external picker: its binary path, its configured extra
/// arguments, and the dry-run flag.
#[derive(Debug)]
pub struct Wofi {
    path: String,
    args: String,
    dry_run: bool,
}

/// The mathematical value of a `Wofi`.
#[verifier::ext_equal]
pub ghost struct WofiView {
    pub path: Seq<char>,
    pub args: Seq<char>,
    pub dry_run: bool,
}

impl View for Wofi {
    type V = WofiView;

    closed spec fn view(&self) -> WofiView {
        WofiView { path: self.path@, args: self.args@, dry_run: self.dry_run }
    }
}

/// What a config table leaves of the picker settings: each given field
/// replaces its counterpart, absent fields keep the old value.
pub open spec fn spec_wofi_merge(w: WofiView, c: WofiConfigView) -> WofiView {
    WofiView {
        path: match c.path {
            Option::Some(p) => p,
            Option::None => w.path,
        },
        args: match c.extra_args {
            Option::Some(a) => a,
            Option::None => w.args,
        },
        dry_run: w.dry_run,
    }
}

/// The full argument list for the picker: prompt and line count first
/// (so configured arguments may override them), then the configured
/// extra arguments, then the mandatory dmenu flags, which therefore
/// always win.
pub open spec fn spec_spawn_args(w: WofiView, m: crate::menu::MenuView) -> Seq<Seq<char>> {
    seq!["--prompt"@, m.title, "--lines="@ + spec_decimal((enabled_items(m.items).len() + 1) as nat)]
        + spec_words(w.args) + seq!["-Ddmenu-print_line_num=true"@, "--dmenu"@]
}

impl Wofi {
    pub fn new(path: &str, args: &str) -> (r: Wofi)
        ensures
            r@ == (WofiView { path: path@, args: args@, dry_run: false }),
    {
        Wofi { path: path.to_owned(), args: args.to_owned(), dry_run: false }
    }

    pub fn path(&self) -> (r: String)
        ensures
            r@ == self@.path,
    {
        self.path.clone()
    }

    pub fn args(&self) -> (r: String)
        ensures
            r@ == self@.args,
    {
        self.args.clone()
    }

    pub fn update_path(&mut self, path: &str)
        ensures
            final(self)@ == (WofiView { path: path@, ..old(self)@ }),
    {
        self.path = path.to_owned();
    }

    pub fn dry_run(&mut self, dry_run: bool)
        ensures
            final(self)@ == (WofiView { dry_run, ..old(self)@ }),
    {
        self.dry_run = dry_run;
    }

    pub fn is_dry_run(&self) -> (r: bool)
        ensures
            r == self@.dry_run,
    {
        self.dry_run
    }

    /// Applies the `[wofi]` table of a config file.
    pub fn merge(&mut self, config: WofiConfig) -> (r: Result<(), ConfigError>)
        ensures
            r is Ok,
            final(self)@ == spec_wofi_merge(old(self)@, config@),
    {
        if let Some(path) = config.path {
            self.path = path;
        }
        if let Some(args) = config.extra_args {
            self.args = args;
        }
        Ok(())
    }

    /// The argument list a spawn of the picker uses for this menu.
    pub fn spawn_args(&self, menu: &Menu) -> (r: Vec<String>)
        requires
            enabled_items(menu@.items).len() < usize::MAX,
        ensures
            r.deep_view() == spec_spawn_args(self@, menu@),
    {
        let mut args: Vec<String> = Vec::new();
        args.push("--prompt".to_owned());
        args.push(menu.title().clone());
        let mut lines_arg: String = "--lines=".to_owned();
        let count = format_usize(menu.size() + 1);
        lines_arg.append(count.as_str());
        args.push(lines_arg);
        let mut words = split_words(self.args.as_str());
        args.append(&mut words);
        args.push("-Ddmenu-print_line_num=true".to_owned());
        args.push("--dmenu".to_owned());
        proof {
            assert(args.deep_view() =~~= spec_spawn_args(self@, menu@));
        }
        args
    }
}

/// A trailing newline is the picker's own; the selection is what stands
/// before it.
pub open spec fn spec_strip_newline(s: Seq<char>) -> Seq<char> {
    if s.len() > 0 && s.last() == '\n' {
        s.drop_last()
    } else {
        s
    }
}

fn strip_trailing_newline(s: &str) -> (r: String)
    ensures
        r@ == spec_strip_newline(s@),
{
    let n = s.unicode_len();
    if n > 0 && s.get_char(n - 1) == '\n' {
        let r = s.substring_char(0, n - 1).to_owned();
        proof {
            assert(r@ =~= s@.drop_last());
        }
        r
    } else {
        s.to_owned()
    }
}

/// Reads the picker's ending as the caller must: success hands back the
/// selection without its trailing newline, the conventional
/// user-cancelled status hands back an empty selection, anything else
/// is an abnormal exit.
pub fn interpret_picker_output(code: Option<i32>, out: &str) -> (r: Result<String, PickerError>)
    ensures
        match code {
            Option::Some(c) => {
                if c == 0 {
                    r matches Ok(s) && s@ == spec_strip_newline(out@)
                } else if c == 1 {
                    r matches Ok(s) && s@ == Seq::<char>::empty()
                } else {
                    r matches Err(PickerError::AbnormalExit { code: rc }) && rc == c
                }
            },
            Option::None => r matches Err(e) && e is NoExitCode,
        },
{
    match code {
        Some(c) => {
            if c == 0 {
                Ok(strip_trailing_newline(out))
            } else if c == 1 {
                proof {
                    reveal_strlit("");
                }
                Ok(String::new())
            } else {
                Err(PickerError::AbnormalExit { code: c })
            }
        },
        None => Err(PickerError::NoExitCode),
    }
}

} // verus!
