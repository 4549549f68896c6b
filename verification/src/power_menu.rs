//! The power-menu wiring: the session-manager command table, the
//! built-in default menu and picker settings, and the merging of config
//! files and command-line arguments into them.
use vstd::prelude::*;
use vstd::string::StrSliceExecFns;
use vstd::string::StringExecFns;

use crate::config::Config;
use crate::error::ConfigError;
use crate::icons;
use crate::menu::index_of_id;
use crate::menu::spec_menu_merge;
use crate::menu::Item;
use crate::menu::ItemView;
use crate::menu::Menu;
use crate::menu::MenuView;
use crate::wofi::spec_wofi_merge;
use crate::wofi::Wofi;
use crate::wofi::WofiView;

verus! {

/// The service-manager family backing the power actions.
#[derive(Debug, Clone, Copy, PartialEq, Eq, Structural)]
pub enum SessionManager {
    Systemd,
    Elogind,
}

/// The built-in power actions.
#[derive(Debug, Clone, Copy, PartialEq, Eq, Structural)]
pub enum Action {
    Shutdown,
    Reboot,
    Suspend,
    Hibernate,
    Logout,
    LockScreen,
}

impl SessionManager {
    /// The service-control program this family uses.
    pub open spec fn spec_command(self) -> Seq<char> {
        match self {
            SessionManager::Systemd => "systemctl"@,
            SessionManager::Elogind => "elogind"@,
        }
    }

    pub fn command(&self) -> (r: String)
        ensures
            r@ == self.spec_command(),
    {
        match self {
            SessionManager::Systemd => "systemctl".to_owned(),
            SessionManager::Elogind => "elogind".to_owned(),
        }
    }

    /// The shell command an action resolves to under this family; the
    /// login-session actions go through `loginctl` either way.
    pub open spec fn spec_execute(self, action: Action) -> Seq<char> {
        match action {
            Action::Shutdown => self.spec_command() + " poweroff"@,
            Action::Reboot => self.spec_command() + " reboot"@,
            Action::Suspend => self.spec_command() + " suspend"@,
            Action::Hibernate => self.spec_command() + " hibernate"@,
            Action::Logout => "loginctl terminate-session"@,
            Action::LockScreen => "loginctl lock-session"@,
        }
    }

    pub fn execute(&self, action: Action) -> (r: String)
        ensures
            r@ == self.spec_execute(action),
    {
        match action {
            Action::Shutdown => {
                let mut s = self.command();
                s.append(" poweroff");
                s
            },
            Action::Reboot => {
                let mut s = self.command();
                s.append(" reboot");
                s
            },
            Action::Suspend => {
                let mut s = self.command();
                s.append(" suspend");
                s
            },
            Action::Hibernate => {
                let mut s = self.command();
                s.append(" hibernate");
                s
            },
            Action::Logout => "loginctl terminate-session".to_owned(),
            Action::LockScreen => "loginctl lock-session".to_owned(),
        }
    }

    /// The lower-case label the command line uses for this family.
    pub fn name(&self) -> (r: String)
        ensures
            r@ == (match *self {
                SessionManager::Systemd => "systemd"@,
                SessionManager::Elogind => "elogind"@,
            }),
    {
        match self {
            SessionManager::Systemd => "systemd".to_owned(),
            SessionManager::Elogind => "elogind".to_owned(),
        }
    }
}

/// The command-line surface, as plain values.
#[derive(Debug)]
pub struct CliArgs {
    /// Print additional information.
    pub verbose: bool,
    /// Overriding path to the picker binary.
    pub wofi_path: Option<String>,
    /// Menu items to disable.
    pub disable: Vec<String>,
    /// Simulate the command without executing it.
    pub dry_run: bool,
    /// Menu items to force confirmation on.
    pub confirm: Vec<String>,
    /// Show the menu items and exit.
    pub list_items: bool,
    /// Explicit path to the config file.
    pub config: Option<String>,
    /// The service-manager family to build commands for.
    pub session_manager: SessionManager,
}

/// The mathematical value of a `CliArgs`.
#[verifier::ext_equal]
pub ghost struct CliArgsView {
    pub verbose: bool,
    pub wofi_path: Option<Seq<char>>,
    pub disable: Seq<Seq<char>>,
    pub dry_run: bool,
    pub confirm: Seq<Seq<char>>,
    pub list_items: bool,
    pub config: Option<Seq<char>>,
    pub session_manager: SessionManager,
}

impl View for CliArgs {
    type V = CliArgsView;

    open spec fn view(&self) -> CliArgsView {
        CliArgsView {
            verbose: self.verbose,
            wofi_path: self.wofi_path.deep_view(),
            disable: self.disable.deep_view(),
            dry_run: self.dry_run,
            confirm: self.confirm.deep_view(),
            list_items: self.list_items,
            config: self.config.deep_view(),
            session_manager: self.session_manager,
        }
    }
}

/// The built-in menu: the six power actions, with confirmation asked
/// for shutdown and reboot only, and hibernate, logout and lock-screen
/// starting enabled like the rest.
pub open spec fn spec_default_menu(sm: SessionManager) -> MenuView {
    MenuView {
        title: "Power menu"@,
        items: seq![
            ItemView {
                id: "shutdown"@,
                title: "Shut down"@,
                icon: icons::SHUTDOWN,
                cmd: sm.spec_execute(Action::Shutdown),
                requires_confirmation: true,
                enabled: true,
            },
            ItemView {
                id: "reboot"@,
                title: "Reboot"@,
                icon: icons::REBOOT,
                cmd: sm.spec_execute(Action::Reboot),
                requires_confirmation: true,
                enabled: true,
            },
            ItemView {
                id: "suspend"@,
                title: "Suspend"@,
                icon: icons::SUSPEND,
                cmd: sm.spec_execute(Action::Suspend),
                requires_confirmation: true,
                enabled: true,
            },
            ItemView {
                id: "hibernate"@,
                title: "Hibernate"@,
                icon: icons::HIBERNATE,
                cmd: sm.spec_execute(Action::Hibernate),
                requires_confirmation: false,
                enabled: true,
            },
            ItemView {
                id: "logout"@,
                title: "Logout"@,
                icon: icons::LOGOUT,
                cmd: sm.spec_execute(Action::Logout),
                requires_confirmation: false,
                enabled: true,
            },
            ItemView {
                id: "lock-screen"@,
                title: "Lock screen"@,
                icon: icons::LOCK_SCREEN,
                cmd: sm.spec_execute(Action::LockScreen),
                requires_confirmation: false,
                enabled: true,
            },
        ],
    }
}

pub fn default_menu(session_manager: SessionManager) -> (r: Menu)
    ensures
        r@ == spec_default_menu(session_manager),
{
    let mut items: Vec<Item> = Vec::new();
    items.push(
        Item::new(
            "shutdown",
            "Shut down",
            icons::SHUTDOWN,
            session_manager.execute(Action::Shutdown).as_str(),
            true,
        ),
    );
    items.push(
        Item::new(
            "reboot",
            "Reboot",
            icons::REBOOT,
            session_manager.execute(Action::Reboot).as_str(),
            true,
        ),
    );
    items.push(
        Item::new(
            "suspend",
            "Suspend",
            icons::SUSPEND,
            session_manager.execute(Action::Suspend).as_str(),
            true,
        ),
    );
    items.push(
        Item::new(
            "hibernate",
            "Hibernate",
            icons::HIBERNATE,
            session_manager.execute(Action::Hibernate).as_str(),
            false,
        ),
    );
    items.push(
        Item::new(
            "logout",
            "Logout",
            icons::LOGOUT,
            session_manager.execute(Action::Logout).as_str(),
            false,
        ),
    );
    items.push(
        Item::new(
            "lock-screen",
            "Lock screen",
            icons::LOCK_SCREEN,
            session_manager.execute(Action::LockScreen).as_str(),
            false,
        ),
    );
    let r = Menu::new("Power menu", items);
    proof {
        assert(r@ =~~= spec_default_menu(session_manager));
    }
    r
}

/// The built-in picker settings.
pub fn default_wofi() -> (r: Wofi)
    ensures
        r@ == (WofiView {
            path: "wofi"@,
            args: "--allow-markup --columns=1 --hide-scroll"@,
            dry_run: false,
        }),
{
    Wofi::new("wofi", "--allow-markup --columns=1 --hide-scroll")
}

/// Applies a config file, where one was found: the `[wofi]` table to
/// the picker settings, the item tables to the menu. With no config,
/// both keep their defaults.
pub fn merge_config(menu: &mut Menu, wofi: &mut Wofi, config: Option<Config>) -> (r: Result<
    (),
    ConfigError,
>)
    ensures
        match config {
            Option::None => final(menu)@ == old(menu)@ && final(wofi)@ == old(wofi)@ && r is Ok,
            Option::Some(c) => final(wofi)@ == (match c@.wofi {
                Option::Some(w) => spec_wofi_merge(old(wofi)@, w),
                Option::None => old(wofi)@,
            }) && (match c@.menu {
                Option::None => final(menu)@ == old(menu)@ && r is Ok,
                Option::Some(entries) => ({
                    let m = spec_menu_merge(old(menu)@, entries);
                    final(menu)@ == m.0 && (match r {
                        Ok(_) => m.1 is None,
                        Err(e) => m.1 == Some(e.deep_view()),
                    })
                }),
            }),
        },
{
    if let Some(config) = config {
        if let Some(wofi_config) = config.wofi {
            let res = wofi.merge(wofi_config);
            if let Err(e) = res {
                return Err(e);
            }
        }
        if let Some(menu_config) = config.menu {
            let res = menu.merge(&menu_config);
            if let Err(e) = res {
                return Err(e);
            }
        }
    }
    Ok(())
}

/// What disabling one id leaves of the items: the first item of that
/// id, if any, loses its enabled flag.
pub open spec fn spec_disable_id(items: Seq<ItemView>, id: Seq<char>) -> Seq<ItemView> {
    let idx = index_of_id(items, id);
    if idx < 0 {
        items
    } else {
        items.update(idx, ItemView { enabled: false, ..items[idx] })
    }
}

pub open spec fn spec_disable_all(items: Seq<ItemView>, ids: Seq<Seq<char>>) -> Seq<ItemView>
    decreases ids.len(),
{
    if ids.len() == 0 {
        items
    } else {
        spec_disable_all(spec_disable_id(items, ids[0]), ids.drop_first())
    }
}

/// What forcing confirmation on one id leaves of the items.
pub open spec fn spec_confirm_id(items: Seq<ItemView>, id: Seq<char>) -> Seq<ItemView> {
    let idx = index_of_id(items, id);
    if idx < 0 {
        items
    } else {
        items.update(idx, ItemView { requires_confirmation: true, ..items[idx] })
    }
}

pub open spec fn spec_confirm_all(items: Seq<ItemView>, ids: Seq<Seq<char>>) -> Seq<ItemView>
    decreases ids.len(),
{
    if ids.len() == 0 {
        items
    } else {
        spec_confirm_all(spec_confirm_id(items, ids[0]), ids.drop_first())
    }
}

/// Applies the command-line overrides: the picker path, the dry-run
/// flag, every named disable, then every named confirmation; ids that
/// name no item are ignored.
pub fn merge_cli_args(menu: &mut Menu, wofi: &mut Wofi, cli: &CliArgs) -> (r: Result<
    (),
    ConfigError,
>)
    ensures
        r is Ok,
        final(wofi)@.path == (match cli@.wofi_path {
            Option::Some(p) => p,
            Option::None => old(wofi)@.path,
        }),
        final(wofi)@.args == old(wofi)@.args,
        final(wofi)@.dry_run == cli@.dry_run,
        final(menu)@.title == old(menu)@.title,
        final(menu)@.items == spec_confirm_all(
            spec_disable_all(old(menu)@.items, cli@.disable),
            cli@.confirm,
        ),
{
    if let Some(path) = &cli.wofi_path {
        wofi.update_path(path.as_str());
    }
    let dn = cli.disable.len();
    let mut i: usize = 0;
    proof {
        assert(cli.disable.deep_view().subrange(0, dn as int) =~= cli@.disable);
    }
    while i < dn
        invariant
            i <= dn,
            dn == cli.disable@.len(),
            menu@.title == old(menu)@.title,
            spec_disable_all(old(menu)@.items, cli@.disable) == spec_disable_all(
                menu@.items,
                cli.disable.deep_view().subrange(i as int, dn as int),
            ),
        decreases dn - i,
    {
        proof {
            assert(cli.disable.deep_view().subrange(i as int, dn as int).drop_first()
                =~= cli.disable.deep_view().subrange(i + 1, dn as int));
            assert(cli.disable.deep_view().subrange(i as int, dn as int)[0]
                == cli.disable.deep_view()[i as int]);
        }
        let ghost m_i = menu@;
        if let Some(item) = menu.item_mut(cli.disable[i].as_str()) {
            item.disable();
            proof {
                assert(menu@.items =~~= spec_disable_id(m_i.items, cli.disable.deep_view()[i as int]));
            }
        }
        i += 1;
    }
    wofi.dry_run(cli.dry_run);
    let cn = cli.confirm.len();
    let mut k: usize = 0;
    proof {
        assert(cli.confirm.deep_view().subrange(0, cn as int) =~= cli@.confirm);
    }
    while k < cn
        invariant
            k <= cn,
            cn == cli.confirm@.len(),
            menu@.title == old(menu)@.title,
            spec_confirm_all(
                spec_disable_all(old(menu)@.items, cli@.disable),
                cli@.confirm,
            ) == spec_confirm_all(
                menu@.items,
                cli.confirm.deep_view().subrange(k as int, cn as int),
            ),
        decreases cn - k,
    {
        proof {
            assert(cli.confirm.deep_view().subrange(k as int, cn as int).drop_first()
                =~= cli.confirm.deep_view().subrange(k + 1, cn as int));
            assert(cli.confirm.deep_view().subrange(k as int, cn as int)[0]
                == cli.confirm.deep_view()[k as int]);
        }
        let ghost m_k = menu@;
        if let Some(item) = menu.item_mut(cli.confirm[k].as_str()) {
            item.set_confirmation(true);
            proof {
                assert(menu@.items =~~= spec_confirm_id(m_k.items, cli.confirm.deep_view()[k as int]));
            }
        }
        k += 1;
    }
    Ok(())
}

} // verus!
