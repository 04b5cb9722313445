use awesomium::{
    awe_webcore_create_webview, awe_webcore_initialize, awe_webcore_initialize_default,
    awe_webcore_set_base_directory, check_text, to_flag_byte, CreateWebviewArguments,
    InitializeParams, LogLevel,
};

#[test]
fn default_params_have_the_documented_values() {
    let p = InitializeParams::default();
    assert!(!p.enable_plugins);
    assert!(p.enable_javascript);
    assert!(!p.enable_databases);
    assert_eq!(p.package_path, None);
    assert_eq!(p.locale_path, None);
    assert_eq!(p.user_data_path, None);
    assert_eq!(p.plugin_path, None);
    assert_eq!(p.log_path, None);
    assert_eq!(p.log_level, LogLevel::Normal);
    assert!(!p.force_single_process);
    assert_eq!(p.child_process_path, None);
    assert!(p.enable_auto_detect_encoding);
    assert_eq!(p.accept_language_override, None);
    assert_eq!(p.default_charset_override, None);
    assert_eq!(p.user_agent_override, None);
    assert_eq!(p.proxy_server, None);
    assert_eq!(p.proxy_config_script, None);
    assert_eq!(p.auth_server_whitelist, None);
    assert!(p.save_cache_and_cookies);
    assert_eq!(p.max_cache_size, 0);
    assert!(!p.disable_same_origin_policy);
    assert!(!p.disable_win_message_pump);
    assert_eq!(p.custom_css, None);
    assert!(p.check_texts());
}

#[test]
fn flags_become_zero_or_one() {
    assert_eq!(to_flag_byte(false), 0);
    assert_eq!(to_flag_byte(true), 1);
}

#[test]
fn check_text_refuses_only_text_with_nul() {
    assert!(check_text(None));
    assert!(check_text(Some("")));
    assert!(check_text(Some("/usr/share")));
    assert!(!check_text(Some("/usr\0/share")));
}

#[test]
fn check_texts_refuses_a_nul_in_any_text() {
    let mut p = InitializeParams::default();
    p.custom_css = Some("body { }");
    assert!(p.check_texts());
    p.custom_css = Some("body\0");
    assert!(!p.check_texts());
    p.custom_css = None;
    p.package_path = Some("\0");
    assert!(!p.check_texts());
}

#[test]
fn initialize_lays_out_default_arguments() {
    let a = awe_webcore_initialize(InitializeParams::default());
    assert_eq!(a.enable_plugins, 0);
    assert_eq!(a.enable_javascript, 1);
    assert_eq!(a.enable_databases, 0);
    assert!(a.package_path.bytes().is_none());
    assert!(a.locale_path.bytes().is_none());
    assert!(a.user_data_path.bytes().is_none());
    assert!(a.plugin_path.bytes().is_none());
    assert!(a.log_path.bytes().is_none());
    assert_eq!(a.log_level, LogLevel::Normal);
    assert_eq!(a.force_single_process, 0);
    assert!(a.child_process_path.bytes().is_none());
    assert_eq!(a.enable_auto_detect_encoding, 1);
    assert!(a.accept_language_override.bytes().is_none());
    assert!(a.default_charset_override.bytes().is_none());
    assert!(a.user_agent_override.bytes().is_none());
    assert!(a.proxy_server.bytes().is_none());
    assert!(a.proxy_config_script.bytes().is_none());
    assert!(a.auth_server_whitelist.bytes().is_none());
    assert_eq!(a.save_cache_and_cookies, 1);
    assert_eq!(a.max_cache_size, 0);
    assert_eq!(a.disable_same_origin_policy, 0);
    assert_eq!(a.disable_win_message_pump, 0);
    assert!(a.custom_css.bytes().is_none());
}

#[test]
fn initialize_default_equals_initialize_of_default() {
    let a = awe_webcore_initialize_default();
    assert_eq!(a.enable_javascript, 1);
    assert_eq!(a.enable_plugins, 0);
    assert_eq!(a.log_level, LogLevel::Normal);
    assert_eq!(a.save_cache_and_cookies, 1);
    assert!(a.custom_css.bytes().is_none());
}

#[test]
fn initialize_keeps_each_setting_in_its_place() {
    let p = InitializeParams {
        enable_plugins: true,
        enable_javascript: false,
        enable_databases: true,
        package_path: Some("pkg"),
        locale_path: Some("loc"),
        user_data_path: Some("usr"),
        plugin_path: Some("plg"),
        log_path: Some("log"),
        log_level: LogLevel::Verbose,
        force_single_process: true,
        child_process_path: Some("chl"),
        enable_auto_detect_encoding: false,
        accept_language_override: Some("acc"),
        default_charset_override: Some("chr"),
        user_agent_override: Some("agt"),
        proxy_server: Some("prx"),
        proxy_config_script: Some("scr"),
        auth_server_whitelist: Some("wht"),
        save_cache_and_cookies: false,
        max_cache_size: 4096,
        disable_same_origin_policy: true,
        disable_win_message_pump: true,
        custom_css: Some("css"),
    };
    let a = awe_webcore_initialize(p);
    assert_eq!(a.enable_plugins, 1);
    assert_eq!(a.enable_javascript, 0);
    assert_eq!(a.enable_databases, 1);
    assert_eq!(a.package_path.bytes().unwrap().as_slice(), b"pkg");
    assert_eq!(a.locale_path.bytes().unwrap().as_slice(), b"loc");
    assert_eq!(a.user_data_path.bytes().unwrap().as_slice(), b"usr");
    assert_eq!(a.plugin_path.bytes().unwrap().as_slice(), b"plg");
    assert_eq!(a.log_path.bytes().unwrap().as_slice(), b"log");
    assert_eq!(a.log_level, LogLevel::Verbose);
    assert_eq!(a.force_single_process, 1);
    assert_eq!(a.child_process_path.bytes().unwrap().as_slice(), b"chl");
    assert_eq!(a.enable_auto_detect_encoding, 0);
    assert_eq!(a.accept_language_override.bytes().unwrap().as_slice(), b"acc");
    assert_eq!(a.default_charset_override.bytes().unwrap().as_slice(), b"chr");
    assert_eq!(a.user_agent_override.bytes().unwrap().as_slice(), b"agt");
    assert_eq!(a.proxy_server.bytes().unwrap().as_slice(), b"prx");
    assert_eq!(a.proxy_config_script.bytes().unwrap().as_slice(), b"scr");
    assert_eq!(a.auth_server_whitelist.bytes().unwrap().as_slice(), b"wht");
    assert_eq!(a.save_cache_and_cookies, 0);
    assert_eq!(a.max_cache_size, 4096);
    assert_eq!(a.disable_same_origin_policy, 1);
    assert_eq!(a.disable_win_message_pump, 1);
    assert_eq!(a.custom_css.bytes().unwrap().as_slice(), b"css");
}

#[test]
fn create_webview_passes_sizes_that_fit() {
    assert_eq!(
        awe_webcore_create_webview(1024, 768, false),
        CreateWebviewArguments { width: 1024, height: 768, view_source: 0 }
    );
    assert_eq!(
        awe_webcore_create_webview(-1, 0, true),
        CreateWebviewArguments { width: -1, height: 0, view_source: 1 }
    );
    let a = awe_webcore_create_webview(i32::MAX as isize, i32::MIN as isize, false);
    assert_eq!(a.width, i32::MAX);
    assert_eq!(a.height, i32::MIN);
}

#[test]
fn set_base_directory_hands_over_the_path() {
    let s = awe_webcore_set_base_directory("/srv/pages");
    assert_eq!(s.bytes().unwrap().as_slice(), b"/srv/pages");
}
