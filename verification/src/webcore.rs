//! Starting the engine and opening views: the arguments of each call.

use vstd::prelude::*;
use vstd::string::StringSliceAdditionalSpecFns;
use crate::string::{has_nul, nul_free, AweString};

verus! {

/// How much the engine writes to its log.
#[derive(Clone, Copy, Debug, PartialEq, Eq, Structural)]
pub enum LogLevel {
    Off,
    Normal,
    Verbose,
}

/// The settings the engine is started with.
pub struct InitializeParams<'a> {
    pub enable_plugins: bool,
    pub enable_javascript: bool,
    pub enable_databases: bool,
    pub package_path: Option<&'a str>,
    pub locale_path: Option<&'a str>,
    pub user_data_path: Option<&'a str>,
    pub plugin_path: Option<&'a str>,
    pub log_path: Option<&'a str>,
    pub log_level: LogLevel,
    pub force_single_process: bool,
    pub child_process_path: Option<&'a str>,
    pub enable_auto_detect_encoding: bool,
    pub accept_language_override: Option<&'a str>,
    pub default_charset_override: Option<&'a str>,
    pub user_agent_override: Option<&'a str>,
    pub proxy_server: Option<&'a str>,
    pub proxy_config_script: Option<&'a str>,
    pub auth_server_whitelist: Option<&'a str>,
    pub save_cache_and_cookies: bool,
    pub max_cache_size: i32,
    pub disable_same_origin_policy: bool,
    pub disable_win_message_pump: bool,
    pub custom_css: Option<&'a str>,
}

/// The byte the engine reads a flag from: 1 for set, 0 for clear.
pub open spec fn flag_byte(flag: bool) -> u8 {
    if flag {
        1u8
    } else {
        0u8
    }
}

/// Whether optional text can be handed to the engine: it holds no NUL.
pub open spec fn text_ok(text: Option<&str>) -> bool {
    text matches Some(t) ==> nul_free(t.spec_bytes())
}

/// Computes [`flag_byte`].
pub fn to_flag_byte(flag: bool) -> (r: u8)
    ensures
        r == flag_byte(flag),
{
    if flag {
        1
    } else {
        0
    }
}

/// Computes [`text_ok`].
pub fn check_text(text: Option<&str>) -> (r: bool)
    ensures
        r == text_ok(text),
{
    match text {
        None => true,
        Some(t) => !has_nul(t),
    }
}

impl<'a> InitializeParams<'a> {
    /// Whether every text setting can be handed to the engine.
    pub open spec fn texts_ok(&self) -> bool {
        &&& text_ok(self.package_path)
        &&& text_ok(self.locale_path)
        &&& text_ok(self.user_data_path)
        &&& text_ok(self.plugin_path)
        &&& text_ok(self.log_path)
        &&& text_ok(self.child_process_path)
        &&& text_ok(self.accept_language_override)
        &&& text_ok(self.default_charset_override)
        &&& text_ok(self.user_agent_override)
        &&& text_ok(self.proxy_server)
        &&& text_ok(self.proxy_config_script)
        &&& text_ok(self.auth_server_whitelist)
        &&& text_ok(self.custom_css)
    }

    /// The settings a caller starts from.
    pub open spec fn default_params() -> Self {
        InitializeParams {
            enable_plugins: false,
            enable_javascript: true,
            enable_databases: false,
            package_path: None,
            locale_path: None,
            user_data_path: None,
            plugin_path: None,
            log_path: None,
            log_level: LogLevel::Normal,
            force_single_process: false,
            child_process_path: None,
            enable_auto_detect_encoding: true,
            accept_language_override: None,
            default_charset_override: None,
            user_agent_override: None,
            proxy_server: None,
            proxy_config_script: None,
            auth_server_whitelist: None,
            save_cache_and_cookies: true,
            max_cache_size: 0,
            disable_same_origin_policy: false,
            disable_win_message_pump: false,
            custom_css: None,
        }
    }

    /// Computes [`Self::texts_ok`].
    pub fn check_texts(&self) -> (r: bool)
        ensures
            r == self.texts_ok(),
    {
        check_text(self.package_path) && check_text(self.locale_path) && check_text(
            self.user_data_path,
        ) && check_text(self.plugin_path) && check_text(self.log_path) && check_text(
            self.child_process_path,
        ) && check_text(self.accept_language_override) && check_text(
            self.default_charset_override,
        ) && check_text(self.user_agent_override) && check_text(self.proxy_server)
            && check_text(self.proxy_config_script) && check_text(self.auth_server_whitelist)
            && check_text(self.custom_css)
    }
}

impl<'a> Default for InitializeParams<'a> {
    /// JavaScript, encoding detection and the cache are on, logging is
    /// normal, every path and override is left to the engine, and the rest
    /// is off.
    fn default() -> (r: InitializeParams<'a>)
        ensures
            !r.enable_plugins,
            r.enable_javascript,
            !r.enable_databases,
            r.package_path is None,
            r.locale_path is None,
            r.user_data_path is None,
            r.plugin_path is None,
            r.log_path is None,
            r.log_level == LogLevel::Normal,
            !r.force_single_process,
            r.child_process_path is None,
            r.enable_auto_detect_encoding,
            r.accept_language_override is None,
            r.default_charset_override is None,
            r.user_agent_override is None,
            r.proxy_server is None,
            r.proxy_config_script is None,
            r.auth_server_whitelist is None,
            r.save_cache_and_cookies,
            r.max_cache_size == 0,
            !r.disable_same_origin_policy,
            !r.disable_win_message_pump,
            r.custom_css is None,
            r == Self::default_params(),
    {
        InitializeParams {
            enable_plugins: false,
            enable_javascript: true,
            enable_databases: false,
            package_path: None,
            locale_path: None,
            user_data_path: None,
            plugin_path: None,
            log_path: None,
            log_level: LogLevel::Normal,
            force_single_process: false,
            child_process_path: None,
            enable_auto_detect_encoding: true,
            accept_language_override: None,
            default_charset_override: None,
            user_agent_override: None,
            proxy_server: None,
            proxy_config_script: None,
            save_cache_and_cookies: true,
            max_cache_size: 0,
            disable_same_origin_policy: false,
            disable_win_message_pump: false,
            custom_css: None,
            auth_server_whitelist: None,
        }
    }
}

/// The arguments of the engine's start call, in the order it takes them.
pub struct InitializeArguments {
    pub enable_plugins: u8,
    pub enable_javascript: u8,
    pub enable_databases: u8,
    pub package_path: AweString,
    pub locale_path: AweString,
    pub user_data_path: AweString,
    pub plugin_path: AweString,
    pub log_path: AweString,
    pub log_level: LogLevel,
    pub force_single_process: u8,
    pub child_process_path: AweString,
    pub enable_auto_detect_encoding: u8,
    pub accept_language_override: AweString,
    pub default_charset_override: AweString,
    pub user_agent_override: AweString,
    pub proxy_server: AweString,
    pub proxy_config_script: AweString,
    pub auth_server_whitelist: AweString,
    pub save_cache_and_cookies: u8,
    pub max_cache_size: i32,
    pub disable_same_origin_policy: u8,
    pub disable_win_message_pump: u8,
    pub custom_css: AweString,
}

impl InitializeArguments {
    /// Whether these are the arguments that `params` stands for: each flag
    /// as its byte, each text as its engine string, the rest unchanged.
    pub open spec fn matches_params(&self, params: InitializeParams) -> bool {
        &&& self.enable_plugins == flag_byte(params.enable_plugins)
        &&& self.enable_javascript == flag_byte(params.enable_javascript)
        &&& self.enable_databases == flag_byte(params.enable_databases)
        &&& self.package_path@ == AweString::spec_from(params.package_path)
        &&& self.locale_path@ == AweString::spec_from(params.locale_path)
        &&& self.user_data_path@ == AweString::spec_from(params.user_data_path)
        &&& self.plugin_path@ == AweString::spec_from(params.plugin_path)
        &&& self.log_path@ == AweString::spec_from(params.log_path)
        &&& self.log_level == params.log_level
        &&& self.force_single_process == flag_byte(params.force_single_process)
        &&& self.child_process_path@ == AweString::spec_from(params.child_process_path)
        &&& self.enable_auto_detect_encoding == flag_byte(params.enable_auto_detect_encoding)
        &&& self.accept_language_override@ == AweString::spec_from(
            params.accept_language_override,
        )
        &&& self.default_charset_override@ == AweString::spec_from(
            params.default_charset_override,
        )
        &&& self.user_agent_override@ == AweString::spec_from(params.user_agent_override)
        &&& self.proxy_server@ == AweString::spec_from(params.proxy_server)
        &&& self.proxy_config_script@ == AweString::spec_from(params.proxy_config_script)
        &&& self.auth_server_whitelist@ == AweString::spec_from(params.auth_server_whitelist)
        &&& self.save_cache_and_cookies == flag_byte(params.save_cache_and_cookies)
        &&& self.max_cache_size == params.max_cache_size
        &&& self.disable_same_origin_policy == flag_byte(params.disable_same_origin_policy)
        &&& self.disable_win_message_pump == flag_byte(params.disable_win_message_pump)
        &&& self.custom_css@ == AweString::spec_from(params.custom_css)
    }

    /// Whether every engine string among the arguments is free of NUL.
    pub open spec fn wf(&self) -> bool {
        &&& self.package_path.wf()
        &&& self.locale_path.wf()
        &&& self.user_data_path.wf()
        &&& self.plugin_path.wf()
        &&& self.log_path.wf()
        &&& self.child_process_path.wf()
        &&& self.accept_language_override.wf()
        &&& self.default_charset_override.wf()
        &&& self.user_agent_override.wf()
        &&& self.proxy_server.wf()
        &&& self.proxy_config_script.wf()
        &&& self.auth_server_whitelist.wf()
        &&& self.custom_css.wf()
    }
}

/// Lays out the arguments that start the engine with `params`.
pub fn awe_webcore_initialize<'a>(params: InitializeParams<'a>) -> (r: InitializeArguments)
    requires
        params.texts_ok(),
    ensures
        r.matches_params(params),
        r.wf(),
{
    InitializeArguments {
        enable_plugins: to_flag_byte(params.enable_plugins),
        enable_javascript: to_flag_byte(params.enable_javascript),
        enable_databases: to_flag_byte(params.enable_databases),
        package_path: AweString::from(params.package_path),
        locale_path: AweString::from(params.locale_path),
        user_data_path: AweString::from(params.user_data_path),
        plugin_path: AweString::from(params.plugin_path),
        log_path: AweString::from(params.log_path),
        log_level: params.log_level,
        force_single_process: to_flag_byte(params.force_single_process),
        child_process_path: AweString::from(params.child_process_path),
        enable_auto_detect_encoding: to_flag_byte(params.enable_auto_detect_encoding),
        accept_language_override: AweString::from(params.accept_language_override),
        default_charset_override: AweString::from(params.default_charset_override),
        user_agent_override: AweString::from(params.user_agent_override),
        proxy_server: AweString::from(params.proxy_server),
        proxy_config_script: AweString::from(params.proxy_config_script),
        auth_server_whitelist: AweString::from(params.auth_server_whitelist),
        save_cache_and_cookies: to_flag_byte(params.save_cache_and_cookies),
        max_cache_size: params.max_cache_size,
        disable_same_origin_policy: to_flag_byte(params.disable_same_origin_policy),
        disable_win_message_pump: to_flag_byte(params.disable_win_message_pump),
        custom_css: AweString::from(params.custom_css),
    }
}

/// The arguments that start the engine with its own defaults: those of
/// [`InitializeParams::default`].
pub fn awe_webcore_initialize_default() -> (r: InitializeArguments)
    ensures
        r.matches_params(InitializeParams::default_params()),
        r.wf(),
{
    awe_webcore_initialize(InitializeParams::default())
}

/// The arguments of the call that opens a view.
#[derive(Clone, Copy, Debug, PartialEq, Eq, Structural)]
pub struct CreateWebviewArguments {
    pub width: i32,
    pub height: i32,
    pub view_source: u8,
}

/// Lays out the arguments that open a view of `width` by `height` pixels.
/// A size beyond 32 bits is cut to its low 32 bits.
pub fn awe_webcore_create_webview(width: isize, height: isize, view_source: bool) -> (r:
    CreateWebviewArguments)
    ensures
        r.width == width as i32,
        r.height == height as i32,
        i32::MIN <= width <= i32::MAX ==> r.width == width,
        i32::MIN <= height <= i32::MAX ==> r.height == height,
        r.view_source == flag_byte(view_source),
{
    CreateWebviewArguments {
        width: #[verifier::truncate] (width as i32),
        height: #[verifier::truncate] (height as i32),
        view_source: to_flag_byte(view_source),
    }
}

/// The engine string naming the directory that relative paths start from.
pub fn awe_webcore_set_base_directory(path: &str) -> (r: AweString)
    requires
        nul_free(path.spec_bytes()),
    ensures
        r@ == Some(path.spec_bytes()),
        r.wf(),
{
    AweString::from_str(path)
}

} // verus!
