//! Which plugins the application registers, and what its setup step does,
//! for a given build profile and platform.
use vstd::prelude::*;

verus! {

/// How the application was built.
#[derive(Clone, Copy, Debug, PartialEq, Eq, Structural)]
pub enum BuildProfile {
    Debug,
    Release,
}

/// The kind of platform the application runs on.
#[derive(Clone, Copy, Debug, PartialEq, Eq, Structural)]
pub enum Platform {
    Desktop,
    Mobile,
}

/// The two axes that decide the startup sequence.
#[derive(Clone, Copy, Debug, PartialEq, Eq, Structural)]
pub struct AppConfig {
    pub profile: BuildProfile,
    pub platform: Platform,
}

/// The web-view behaviours that the prevent-default filter leaves alone;
/// every other default browser behaviour is suppressed.
#[derive(Clone, Copy, Debug, PartialEq, Eq, Structural)]
pub struct FilterExceptions {
    pub dev_tools: bool,
    pub reload: bool,
    pub context_menu: bool,
}

/// A plugin registered on the application builder.
#[derive(Clone, Copy, Debug, PartialEq, Eq, Structural)]
pub enum Plugin {
    DevTools,
    PreventDefault(FilterExceptions),
    Opener,
    Store,
    DeepLink,
    Http,
    Process,
    Os,
    Updater,
}

/// A step of the one-time setup callback that runs before the event loop.
#[derive(Clone, Copy, Debug, PartialEq, Eq, Structural)]
pub enum SetupAction {
    /// Open the developer-tools panel of the main window.
    OpenMainDevTools,
    /// Register the updater plugin; a failure aborts startup.
    RegisterUpdater,
}

/// The filter that keeps developer tools, reload and the context menu.
pub open spec fn permissive_filter() -> FilterExceptions {
    FilterExceptions { dev_tools: true, reload: true, context_menu: true }
}

/// The filter that keeps the context menu only.
pub open spec fn strict_filter() -> FilterExceptions {
    FilterExceptions { dev_tools: false, reload: false, context_menu: true }
}

pub open spec fn filter_for(profile: BuildProfile) -> FilterExceptions {
    match profile {
        BuildProfile::Debug => permissive_filter(),
        BuildProfile::Release => strict_filter(),
    }
}

/// The plugins that every configuration registers, in order, after the
/// profile-dependent ones.
pub open spec fn common_plugins() -> Seq<Plugin> {
    seq![Plugin::Opener, Plugin::Store, Plugin::DeepLink, Plugin::Http, Plugin::Process, Plugin::Os]
}

/// The plugins registered on the builder, in order: developer tools in a
/// debug build, then the prevent-default filter of the profile, then the
/// common ones.
pub open spec fn plugins_for(config: AppConfig) -> Seq<Plugin> {
    let head = match config.profile {
        BuildProfile::Debug => seq![Plugin::DevTools],
        BuildProfile::Release => Seq::empty(),
    };
    head + seq![Plugin::PreventDefault(filter_for(config.profile))] + common_plugins()
}

/// The setup steps, in order: opening the main window's developer tools in
/// a debug build where that window exists, then registering the updater on
/// a desktop platform.
pub open spec fn setup_for(config: AppConfig, main_window_found: bool) -> Seq<SetupAction> {
    let tools = if config.profile == BuildProfile::Debug && main_window_found {
        seq![SetupAction::OpenMainDevTools]
    } else {
        Seq::empty()
    };
    let updater = if config.platform == Platform::Desktop {
        seq![SetupAction::RegisterUpdater]
    } else {
        Seq::empty()
    };
    tools + updater
}

/// Every plugin the application ends up with: those of the builder, and the
/// updater where setup registers it.
pub open spec fn registered_for(config: AppConfig) -> Seq<Plugin> {
    if config.platform == Platform::Desktop {
        plugins_for(config).push(Plugin::Updater)
    } else {
        plugins_for(config)
    }
}

/// The prevent-default filter for a build profile.
pub fn prevent_default(profile: BuildProfile) -> (r: FilterExceptions)
    ensures
        r == filter_for(profile),
{
    match profile {
        BuildProfile::Debug => FilterExceptions { dev_tools: true, reload: true, context_menu: true },
        BuildProfile::Release => FilterExceptions {
            dev_tools: false,
            reload: false,
            context_menu: true,
        },
    }
}

/// The plugins to register on the application builder, in order.
pub fn plugin_set(config: AppConfig) -> (r: Vec<Plugin>)
    ensures
        r@ == plugins_for(config),
{
    let mut r: Vec<Plugin> = Vec::new();
    if config.profile == BuildProfile::Debug {
        r.push(Plugin::DevTools);
    }
    r.push(Plugin::PreventDefault(prevent_default(config.profile)));
    r.push(Plugin::Opener);
    r.push(Plugin::Store);
    r.push(Plugin::DeepLink);
    r.push(Plugin::Http);
    r.push(Plugin::Process);
    r.push(Plugin::Os);
    assert(r@ =~= plugins_for(config));
    r
}

/// The steps of the setup callback, in order, given whether a window with
/// the main window's label exists.
pub fn setup_actions(config: AppConfig, main_window_found: bool) -> (r: Vec<SetupAction>)
    ensures
        r@ == setup_for(config, main_window_found),
{
    let mut r: Vec<SetupAction> = Vec::new();
    if config.profile == BuildProfile::Debug && main_window_found {
        r.push(SetupAction::OpenMainDevTools);
    }
    if config.platform == Platform::Desktop {
        r.push(SetupAction::RegisterUpdater);
    }
    assert(r@ =~= setup_for(config, main_window_found));
    r
}

/// Every plugin that startup registers, in order: the builder's plugins,
/// then the updater where setup registers it.
pub fn registered_plugins(config: AppConfig) -> (r: Vec<Plugin>)
    ensures
        r@ == registered_for(config),
{
    let mut r = plugin_set(config);
    if config.platform == Platform::Desktop {
        r.push(Plugin::Updater);
    }
    r
}

/// A debug build registers the developer-tools plugin and the permissive
/// prevent-default filter; a release build registers neither of them, and
/// the strict filter instead.
pub proof fn debug_tooling_follows_profile(config: AppConfig)
    ensures
        plugins_for(config).contains(Plugin::DevTools) <==> config.profile == BuildProfile::Debug,
        plugins_for(config).contains(Plugin::PreventDefault(permissive_filter()))
            <==> config.profile == BuildProfile::Debug,
        plugins_for(config).contains(Plugin::PreventDefault(strict_filter()))
            <==> config.profile == BuildProfile::Release,
{
    let s = plugins_for(config);
    match config.profile {
        BuildProfile::Debug => {
            assert(s[0] == Plugin::DevTools);
            assert(s[1] == Plugin::PreventDefault(permissive_filter()));
            assert(!s.contains(Plugin::PreventDefault(strict_filter())));
        },
        BuildProfile::Release => {
            assert(s[0] == Plugin::PreventDefault(strict_filter()));
            assert(!s.contains(Plugin::DevTools));
            assert(!s.contains(Plugin::PreventDefault(permissive_filter())));
        },
    }
}

/// Setup registers the updater exactly on a desktop platform, whether or
/// not the main window exists.
pub proof fn updater_only_on_desktop(config: AppConfig, main_window_found: bool)
    ensures
        setup_for(config, main_window_found).contains(SetupAction::RegisterUpdater)
            <==> config.platform == Platform::Desktop,
{
    let s = setup_for(config, main_window_found);
    if config.platform == Platform::Desktop {
        assert(s[s.len() - 1] == SetupAction::RegisterUpdater);
    }
}

/// Without a main window, setup opens no developer tools: the one step left
/// is the updater registration where the platform calls for it.
pub proof fn missing_main_window_is_skipped(config: AppConfig)
    ensures
        !setup_for(config, false).contains(SetupAction::OpenMainDevTools),
        setup_for(config, false) == (if config.platform == Platform::Desktop {
            seq![SetupAction::RegisterUpdater]
        } else {
            Seq::<SetupAction>::empty()
        }),
{
    assert(setup_for(config, false) =~= (if config.platform == Platform::Desktop {
        seq![SetupAction::RegisterUpdater]
    } else {
        Seq::<SetupAction>::empty()
    }));
}

} // verus!
