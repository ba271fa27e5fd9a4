use cargo_fresh::locale::get_chinese_text;
use cargo_fresh::locale::get_english_text;
use cargo_fresh::locale::language_for_locale;
use cargo_fresh::locale::Language;

#[test]
fn test_language_names() {
    assert_eq!(Language::English.name(), "English");
    assert_eq!(Language::Chinese.name(), "Chinese");
}

#[test]
fn test_language_codes() {
    assert_eq!(Language::English.code(), "en");
    assert_eq!(Language::Chinese.code(), "zh");
}

#[test]
fn test_language_checks() {
    assert!(Language::English.is_english());
    assert!(!Language::English.is_chinese());

    assert!(Language::Chinese.is_chinese());
    assert!(!Language::Chinese.is_english());
}

#[test]
fn test_language_display() {
    assert_eq!(format!("{}", Language::English.name()), "English");
    assert_eq!(format!("{}", Language::Chinese.name()), "Chinese");
}

#[test]
fn test_english_texts() {
    assert_eq!(
        get_english_text("checking_packages"),
        "Checking for updates to globally installed Cargo packages..."
    );
    assert_eq!(
        get_english_text("all_up_to_date"),
        "All packages are up to date!"
    );
    assert_eq!(get_english_text("nonexistent_key"), "");
}

#[test]
fn test_chinese_texts() {
    assert_eq!(get_chinese_text("checking_packages"), "检查全局安装的 Cargo 包更新...");
    assert_eq!(get_chinese_text("all_up_to_date"), "所有包都已是最新版本！");
    assert_eq!(get_chinese_text("nonexistent_key"), "");
}

#[test]
fn test_text_consistency() {
    let english_keys = [
        "checking_packages",
        "no_packages_found",
        "found_packages",
        "all_up_to_date",
        "stable_updates",
        "prerelease_updates",
        "prerelease_warning",
        "update_question",
        "include_prerelease_question",
        "select_packages",
        "starting_update",
        "updating_package",
        "package_updated",
        "package_failed",
        "package_error",
        "update_completed",
        "success_count",
        "fail_count",
        "no_packages_selected",
        "update_instructions",
        "interactive_instructions",
        "version_unchanged",
        "unknown_version",
        "version_info_unknown",
        "package_has_update",
        "current_version",
        "latest_version",
        "package_up_to_date",
        "version",
        "update_summary",
        "successful_updates",
        "failed_updates",
        "update_failed",
        "updates_detected",
        "unknown",
        "updating_package_progress",
        "current_version_label",
        "executing_command",
        "retry_attempt",
        "error_message",
        "package_update_success",
        "package_updated_version",
        "package_version_unchanged",
        "package_update_verification_failed",
        "package_update_failed",
        "error_details",
        "waiting_retry",
        "unknown_version",
        "cargo_install_list_failed",
        "checking_package",
        "unable_to_get_latest_version",
        "check_failed",
    ];

    for key in &english_keys {
        let english = get_english_text(key);
        let chinese = get_chinese_text(key);

        if !english.is_empty() {
            assert!(
                !chinese.is_empty(),
                "Missing Chinese translation for key: {}",
                key
            );
        }
    }
}

#[test]
fn test_language_for_chinese_locales() {
    assert_eq!(language_for_locale("zh_CN.UTF-8"), Language::Chinese);
    assert_eq!(language_for_locale("zh_TW.UTF-8"), Language::Chinese);
    assert_eq!(language_for_locale("zh"), Language::Chinese);
}

#[test]
fn test_language_for_english_locales() {
    assert_eq!(language_for_locale("en_US.UTF-8"), Language::English);
    assert_eq!(language_for_locale("en_GB.UTF-8"), Language::English);
    assert_eq!(language_for_locale(""), Language::English);
}

#[test]
fn test_get_text_dispatches_by_language() {
    assert_eq!(
        Language::English.get_text("all_up_to_date"),
        "All packages are up to date!"
    );
    assert_eq!(Language::Chinese.get_text("all_up_to_date"), "所有包都已是最新版本！");
}
