//! The two localized text tables and the language type: every
//! human-readable message of the tool, keyed by a short name, in English and
//! in Chinese, with an empty string for an unknown key.

use vstd::prelude::*;

use crate::text::contains_seq;
use crate::text::contains_sub;
use crate::text::starts_with;
use crate::text::starts_with_sub;
use crate::text::str_eq;

verus! {

/// The supported display languages.
#[derive(Clone, Copy, PartialEq, Eq, Structural, Debug)]
pub enum Language {
    English,
    Chinese,
}

/// The English text for a key; an unknown key yields the empty string.

pub open spec fn spec_english_text(key: Seq<char>) -> Seq<char> {
    if key == "checking_packages"@ {
        "Checking for updates to globally installed Cargo packages..."@
    } else if key == "no_packages_found"@ {
        "No installed packages found"@
    } else if key == "found_packages"@ {
        "Found {} installed packages"@
    } else if key == "all_up_to_date"@ {
        "All packages are up to date!"@
    } else if key == "stable_updates"@ {
        "Stable version updates:"@
    } else if key == "prerelease_updates"@ {
        "Prerelease version updates:"@
    } else if key == "prerelease_warning"@ {
        "⚠️ Prerelease version"@
    } else if key == "update_question"@ {
        "Do you want to update these packages?"@
    } else if key == "include_prerelease_question"@ {
        "Include prerelease version updates?"@
    } else if key == "select_packages"@ {
        "Select packages to update (use space to select, enter to confirm)"@
    } else if key == "no_interactive_mode"@ {
        "Non-interactive mode detected. Skipping update selection."@
    } else if key == "starting_update"@ {
        "Starting to update selected packages..."@
    } else if key == "updating_package"@ {
        "Updating {}..."@
    } else if key == "package_updated"@ {
        "✅ {} updated: {} → {}"@
    } else if key == "package_failed"@ {
        "❌ {} update failed"@
    } else if key == "package_error"@ {
        "❌ {} update error: {}"@
    } else if key == "update_completed"@ {
        "Update completed!"@
    } else if key == "success_count"@ {
        "Success: {} packages"@
    } else if key == "fail_count"@ {
        "Failed: {} packages"@
    } else if key == "no_packages_selected"@ {
        "No packages selected for update"@
    } else if key == "update_instructions"@ {
        "To update packages, use: cargo install --force <package_name>"@
    } else if key == "interactive_instructions"@ {
        "Or remove --no-interactive flag for interactive updates"@
    } else if key == "version_unchanged"@ {
        "version unchanged"@
    } else if key == "unknown_version"@ {
        "unknown version"@
    } else if key == "version_info_unknown"@ {
        "version info unknown"@
    } else if key == "package_has_update"@ {
        "{} has updates available"@
    } else if key == "current_version"@ {
        "Current version:"@
    } else if key == "latest_version"@ {
        "Latest version:"@
    } else if key == "package_up_to_date"@ {
        "{} is up to date"@
    } else if key == "version"@ {
        "Version:"@
    } else if key == "update_summary"@ {
        "📋 Update Summary"@
    } else if key == "successful_updates"@ {
        "✅ Successfully updated packages:"@
    } else if key == "failed_updates"@ {
        "❌ Failed to update packages:"@
    } else if key == "update_failed"@ {
        "update failed"@
    } else if key == "updates_detected"@ {
        "The following packages have updates available:"@
    } else if key == "unknown"@ {
        "unknown"@
    } else if key == "updating_package_progress"@ {
        "Updating {}..."@
    } else if key == "current_version_label"@ {
        "Current version:"@
    } else if key == "executing_command"@ {
        "Executing command:"@
    } else if key == "retry_attempt"@ {
        "Retry attempt {} for {}..."@
    } else if key == "error_message"@ {
        "Error message:"@
    } else if key == "package_update_success"@ {
        "✅ {} update command executed successfully"@
    } else if key == "package_updated_version"@ {
        "✅ {} updated: {} → {}"@
    } else if key == "package_version_unchanged"@ {
        "⚠️ {} version unchanged, may already be the latest version"@
    } else if key == "package_update_verification_failed"@ {
        "⚠️ {} update command successful but unable to verify new version"@
    } else if key == "package_update_failed"@ {
        "❌ {} update failed (exit code: {})"@
    } else if key == "error_details"@ {
        "Error details:"@
    } else if key == "waiting_retry"@ {
        "Waiting before retry..."@
    } else if key == "cargo_install_list_failed"@ {
        "Failed to execute cargo install --list"@
    } else if key == "checking_package"@ {
        "Checking"@
    } else if key == "unable_to_get_latest_version"@ {
        "unable to get latest version information"@
    } else if key == "check_failed"@ {
        "check failed"@
    } else if key == "binstall_not_found"@ {
        "cargo binstall not found"@
    } else if key == "attempting_to_install_binstall"@ {
        "Attempting to install cargo binstall..."@
    } else if key == "installing_binstall"@ {
        "Installing cargo binstall..."@
    } else if key == "binstall_installed_successfully"@ {
        "cargo binstall installed successfully"@
    } else if key == "binstall_install_failed"@ {
        "Failed to install cargo binstall"@
    } else if key == "using_binstall"@ {
        "Using cargo binstall for faster installation"@
    } else if key == "using_install_fallback"@ {
        "Using cargo install as fallback"@
    } else if key == "binstall_failed_fallback"@ {
        "cargo binstall failed, falling back to cargo install"@
    } else if key == "total_time_seconds"@ {
        "Total time: {} seconds"@
    } else if key == "total_time_millis"@ {
        "Total time: {} milliseconds"@
    } else {
        ""@
    }
}

/// The Chinese text for a key; an unknown key yields the empty string.

pub open spec fn spec_chinese_text(key: Seq<char>) -> Seq<char> {
    if key == "checking_packages"@ {
        "检查全局安装的 Cargo 包更新..."@
    } else if key == "no_packages_found"@ {
        "没有找到已安装的包"@
    } else if key == "found_packages"@ {
        "找到 {} 个已安装的包"@
    } else if key == "all_up_to_date"@ {
        "所有包都已是最新版本！"@
    } else if key == "stable_updates"@ {
        "稳定版本更新:"@
    } else if key == "prerelease_updates"@ {
        "预发布版本更新:"@
    } else if key == "prerelease_warning"@ {
        "⚠️ 预发布版本"@
    } else if key == "update_question"@ {
        "是否要更新这些包？"@
    } else if key == "include_prerelease_question"@ {
        "是否包含预发布版本更新？"@
    } else if key == "select_packages"@ {
        "选择要更新的包（使用空格选择，回车确认）"@
    } else if key == "no_interactive_mode"@ {
        "检测到非交互模式。跳过更新选择。"@
    } else if key == "starting_update"@ {
        "开始更新选中的包..."@
    } else if key == "updating_package"@ {
        "正在更新 {}..."@
    } else if key == "package_updated"@ {
        "✅ {} 已更新: {} → {}"@
    } else if key == "package_failed"@ {
        "❌ {} 更新失败"@
    } else if key == "package_error"@ {
        "❌ {} 更新出错: {}"@
    } else if key == "update_completed"@ {
        "更新完成！"@
    } else if key == "success_count"@ {
        "成功: {} 个包"@
    } else if key == "fail_count"@ {
        "失败: {} 个包"@
    } else if key == "no_packages_selected"@ {
        "未选择任何包进行更新"@
    } else if key == "update_instructions"@ {
        "要更新包，请使用: cargo install --force <package_name>"@
    } else if key == "interactive_instructions"@ {
        "或者移除 --no-interactive 参数进行交互式更新"@
    } else if key == "version_unchanged"@ {
        "版本未改变"@
    } else if key == "unknown_version"@ {
        "未知版本"@
    } else if key == "version_info_unknown"@ {
        "版本信息未知"@
    } else if key == "package_has_update"@ {
        "{} 有更新可用"@
    } else if key == "current_version"@ {
        "当前版本:"@
    } else if key == "latest_version"@ {
        "最新版本:"@
    } else if key == "package_up_to_date"@ {
        "{} 已是最新版本"@
    } else if key == "version"@ {
        "版本:"@
    } else if key == "update_summary"@ {
        "📋 更新摘要"@
    } else if key == "successful_updates"@ {
        "✅ 成功更新的包:"@
    } else if key == "failed_updates"@ {
        "❌ 更新失败的包:"@
    } else if key == "update_failed"@ {
        "更新失败"@
    } else if key == "updates_detected"@ {
        "检测到以下包有更新:"@
    } else if key == "unknown"@ {
        "未知"@
    } else if key == "updating_package_progress"@ {
        "正在更新 {}..."@
    } else if key == "current_version_label"@ {
        "当前版本:"@
    } else if key == "executing_command"@ {
        "执行命令:"@
    } else if key == "retry_attempt"@ {
        "重试第 {} 次更新 {}..."@
    } else if key == "error_message"@ {
        "错误信息:"@
    } else if key == "package_update_success"@ {
        "✅ {} 更新命令执行成功"@
    } else if key == "package_updated_version"@ {
        "✅ {} 已更新: {} → {}"@
    } else if key == "package_version_unchanged"@ {
        "⚠️ {} 版本未改变，可能已经是最新版本"@
    } else if key == "package_update_verification_failed"@ {
        "⚠️ {} 更新命令成功但无法验证新版本"@
    } else if key == "package_update_failed"@ {
        "❌ {} 更新失败 (退出码: {})"@
    } else if key == "error_details"@ {
        "错误详情:"@
    } else if key == "waiting_retry"@ {
        "等待后重试..."@
    } else if key == "cargo_install_list_failed"@ {
        "执行 cargo install --list 失败"@
    } else if key == "checking_package"@ {
        "检查"@
    } else if key == "unable_to_get_latest_version"@ {
        "无法获取最新版本信息"@
    } else if key == "check_failed"@ {
        "检查失败"@
    } else if key == "binstall_not_found"@ {
        "未找到 cargo binstall"@
    } else if key == "attempting_to_install_binstall"@ {
        "正在尝试安装 cargo binstall..."@
    } else if key == "installing_binstall"@ {
        "正在安装 cargo binstall..."@
    } else if key == "binstall_installed_successfully"@ {
        "cargo binstall 安装成功"@
    } else if key == "binstall_install_failed"@ {
        "安装 cargo binstall 失败"@
    } else if key == "using_binstall"@ {
        "使用 cargo binstall 进行快速安装"@
    } else if key == "using_install_fallback"@ {
        "使用 cargo install 作为回退方案"@
    } else if key == "binstall_failed_fallback"@ {
        "cargo binstall 失败，回退到 cargo install"@
    } else if key == "total_time_seconds"@ {
        "总耗时: {} 秒"@
    } else if key == "total_time_millis"@ {
        "总耗时: {} 毫秒"@
    } else {
        ""@
    }
}

/// The text a language yields for a key.
pub open spec fn spec_text(lang: Language, key: Seq<char>) -> Seq<char> {
    match lang {
        Language::English => spec_english_text(key),
        Language::Chinese => spec_chinese_text(key),
    }
}

/// Looks a key up in the English table.
pub fn get_english_text(key: &str) -> (r: &'static str)
    ensures
        r@ == spec_english_text(key@),
{
    if str_eq(key, "checking_packages") {
        "Checking for updates to globally installed Cargo packages..."
    } else if str_eq(key, "no_packages_found") {
        "No installed packages found"
    } else if str_eq(key, "found_packages") {
        "Found {} installed packages"
    } else if str_eq(key, "all_up_to_date") {
        "All packages are up to date!"
    } else if str_eq(key, "stable_updates") {
        "Stable version updates:"
    } else if str_eq(key, "prerelease_updates") {
        "Prerelease version updates:"
    } else if str_eq(key, "prerelease_warning") {
        "⚠️ Prerelease version"
    } else if str_eq(key, "update_question") {
        "Do you want to update these packages?"
    } else if str_eq(key, "include_prerelease_question") {
        "Include prerelease version updates?"
    } else if str_eq(key, "select_packages") {
        "Select packages to update (use space to select, enter to confirm)"
    } else if str_eq(key, "no_interactive_mode") {
        "Non-interactive mode detected. Skipping update selection."
    } else if str_eq(key, "starting_update") {
        "Starting to update selected packages..."
    } else if str_eq(key, "updating_package") {
        "Updating {}..."
    } else if str_eq(key, "package_updated") {
        "✅ {} updated: {} → {}"
    } else if str_eq(key, "package_failed") {
        "❌ {} update failed"
    } else if str_eq(key, "package_error") {
        "❌ {} update error: {}"
    } else if str_eq(key, "update_completed") {
        "Update completed!"
    } else if str_eq(key, "success_count") {
        "Success: {} packages"
    } else if str_eq(key, "fail_count") {
        "Failed: {} packages"
    } else if str_eq(key, "no_packages_selected") {
        "No packages selected for update"
    } else if str_eq(key, "update_instructions") {
        "To update packages, use: cargo install --force <package_name>"
    } else if str_eq(key, "interactive_instructions") {
        "Or remove --no-interactive flag for interactive updates"
    } else if str_eq(key, "version_unchanged") {
        "version unchanged"
    } else if str_eq(key, "unknown_version") {
        "unknown version"
    } else if str_eq(key, "version_info_unknown") {
        "version info unknown"
    } else if str_eq(key, "package_has_update") {
        "{} has updates available"
    } else if str_eq(key, "current_version") {
        "Current version:"
    } else if str_eq(key, "latest_version") {
        "Latest version:"
    } else if str_eq(key, "package_up_to_date") {
        "{} is up to date"
    } else if str_eq(key, "version") {
        "Version:"
    } else if str_eq(key, "update_summary") {
        "📋 Update Summary"
    } else if str_eq(key, "successful_updates") {
        "✅ Successfully updated packages:"
    } else if str_eq(key, "failed_updates") {
        "❌ Failed to update packages:"
    } else if str_eq(key, "update_failed") {
        "update failed"
    } else if str_eq(key, "updates_detected") {
        "The following packages have updates available:"
    } else if str_eq(key, "unknown") {
        "unknown"
    } else if str_eq(key, "updating_package_progress") {
        "Updating {}..."
    } else if str_eq(key, "current_version_label") {
        "Current version:"
    } else if str_eq(key, "executing_command") {
        "Executing command:"
    } else if str_eq(key, "retry_attempt") {
        "Retry attempt {} for {}..."
    } else if str_eq(key, "error_message") {
        "Error message:"
    } else if str_eq(key, "package_update_success") {
        "✅ {} update command executed successfully"
    } else if str_eq(key, "package_updated_version") {
        "✅ {} updated: {} → {}"
    } else if str_eq(key, "package_version_unchanged") {
        "⚠️ {} version unchanged, may already be the latest version"
    } else if str_eq(key, "package_update_verification_failed") {
        "⚠️ {} update command successful but unable to verify new version"
    } else if str_eq(key, "package_update_failed") {
        "❌ {} update failed (exit code: {})"
    } else if str_eq(key, "error_details") {
        "Error details:"
    } else if str_eq(key, "waiting_retry") {
        "Waiting before retry..."
    } else if str_eq(key, "cargo_install_list_failed") {
        "Failed to execute cargo install --list"
    } else if str_eq(key, "checking_package") {
        "Checking"
    } else if str_eq(key, "unable_to_get_latest_version") {
        "unable to get latest version information"
    } else if str_eq(key, "check_failed") {
        "check failed"
    } else if str_eq(key, "binstall_not_found") {
        "cargo binstall not found"
    } else if str_eq(key, "attempting_to_install_binstall") {
        "Attempting to install cargo binstall..."
    } else if str_eq(key, "installing_binstall") {
        "Installing cargo binstall..."
    } else if str_eq(key, "binstall_installed_successfully") {
        "cargo binstall installed successfully"
    } else if str_eq(key, "binstall_install_failed") {
        "Failed to install cargo binstall"
    } else if str_eq(key, "using_binstall") {
        "Using cargo binstall for faster installation"
    } else if str_eq(key, "using_install_fallback") {
        "Using cargo install as fallback"
    } else if str_eq(key, "binstall_failed_fallback") {
        "cargo binstall failed, falling back to cargo install"
    } else if str_eq(key, "total_time_seconds") {
        "Total time: {} seconds"
    } else if str_eq(key, "total_time_millis") {
        "Total time: {} milliseconds"
    } else {
        ""
    }
}

/// Looks a key up in the Chinese table.
pub fn get_chinese_text(key: &str) -> (r: &'static str)
    ensures
        r@ == spec_chinese_text(key@),
{
    if str_eq(key, "checking_packages") {
        "检查全局安装的 Cargo 包更新..."
    } else if str_eq(key, "no_packages_found") {
        "没有找到已安装的包"
    } else if str_eq(key, "found_packages") {
        "找到 {} 个已安装的包"
    } else if str_eq(key, "all_up_to_date") {
        "所有包都已是最新版本！"
    } else if str_eq(key, "stable_updates") {
        "稳定版本更新:"
    } else if str_eq(key, "prerelease_updates") {
        "预发布版本更新:"
    } else if str_eq(key, "prerelease_warning") {
        "⚠️ 预发布版本"
    } else if str_eq(key, "update_question") {
        "是否要更新这些包？"
    } else if str_eq(key, "include_prerelease_question") {
        "是否包含预发布版本更新？"
    } else if str_eq(key, "select_packages") {
        "选择要更新的包（使用空格选择，回车确认）"
    } else if str_eq(key, "no_interactive_mode") {
        "检测到非交互模式。跳过更新选择。"
    } else if str_eq(key, "starting_update") {
        "开始更新选中的包..."
    } else if str_eq(key, "updating_package") {
        "正在更新 {}..."
    } else if str_eq(key, "package_updated") {
        "✅ {} 已更新: {} → {}"
    } else if str_eq(key, "package_failed") {
        "❌ {} 更新失败"
    } else if str_eq(key, "package_error") {
        "❌ {} 更新出错: {}"
    } else if str_eq(key, "update_completed") {
        "更新完成！"
    } else if str_eq(key, "success_count") {
        "成功: {} 个包"
    } else if str_eq(key, "fail_count") {
        "失败: {} 个包"
    } else if str_eq(key, "no_packages_selected") {
        "未选择任何包进行更新"
    } else if str_eq(key, "update_instructions") {
        "要更新包，请使用: cargo install --force <package_name>"
    } else if str_eq(key, "interactive_instructions") {
        "或者移除 --no-interactive 参数进行交互式更新"
    } else if str_eq(key, "version_unchanged") {
        "版本未改变"
    } else if str_eq(key, "unknown_version") {
        "未知版本"
    } else if str_eq(key, "version_info_unknown") {
        "版本信息未知"
    } else if str_eq(key, "package_has_update") {
        "{} 有更新可用"
    } else if str_eq(key, "current_version") {
        "当前版本:"
    } else if str_eq(key, "latest_version") {
        "最新版本:"
    } else if str_eq(key, "package_up_to_date") {
        "{} 已是最新版本"
    } else if str_eq(key, "version") {
        "版本:"
    } else if str_eq(key, "update_summary") {
        "📋 更新摘要"
    } else if str_eq(key, "successful_updates") {
        "✅ 成功更新的包:"
    } else if str_eq(key, "failed_updates") {
        "❌ 更新失败的包:"
    } else if str_eq(key, "update_failed") {
        "更新失败"
    } else if str_eq(key, "updates_detected") {
        "检测到以下包有更新:"
    } else if str_eq(key, "unknown") {
        "未知"
    } else if str_eq(key, "updating_package_progress") {
        "正在更新 {}..."
    } else if str_eq(key, "current_version_label") {
        "当前版本:"
    } else if str_eq(key, "executing_command") {
        "执行命令:"
    } else if str_eq(key, "retry_attempt") {
        "重试第 {} 次更新 {}..."
    } else if str_eq(key, "error_message") {
        "错误信息:"
    } else if str_eq(key, "package_update_success") {
        "✅ {} 更新命令执行成功"
    } else if str_eq(key, "package_updated_version") {
        "✅ {} 已更新: {} → {}"
    } else if str_eq(key, "package_version_unchanged") {
        "⚠️ {} 版本未改变，可能已经是最新版本"
    } else if str_eq(key, "package_update_verification_failed") {
        "⚠️ {} 更新命令成功但无法验证新版本"
    } else if str_eq(key, "package_update_failed") {
        "❌ {} 更新失败 (退出码: {})"
    } else if str_eq(key, "error_details") {
        "错误详情:"
    } else if str_eq(key, "waiting_retry") {
        "等待后重试..."
    } else if str_eq(key, "cargo_install_list_failed") {
        "执行 cargo install --list 失败"
    } else if str_eq(key, "checking_package") {
        "检查"
    } else if str_eq(key, "unable_to_get_latest_version") {
        "无法获取最新版本信息"
    } else if str_eq(key, "check_failed") {
        "检查失败"
    } else if str_eq(key, "binstall_not_found") {
        "未找到 cargo binstall"
    } else if str_eq(key, "attempting_to_install_binstall") {
        "正在尝试安装 cargo binstall..."
    } else if str_eq(key, "installing_binstall") {
        "正在安装 cargo binstall..."
    } else if str_eq(key, "binstall_installed_successfully") {
        "cargo binstall 安装成功"
    } else if str_eq(key, "binstall_install_failed") {
        "安装 cargo binstall 失败"
    } else if str_eq(key, "using_binstall") {
        "使用 cargo binstall 进行快速安装"
    } else if str_eq(key, "using_install_fallback") {
        "使用 cargo install 作为回退方案"
    } else if str_eq(key, "binstall_failed_fallback") {
        "cargo binstall 失败，回退到 cargo install"
    } else if str_eq(key, "total_time_seconds") {
        "总耗时: {} 秒"
    } else if str_eq(key, "total_time_millis") {
        "总耗时: {} 毫秒"
    } else {
        ""
    }
}

impl Language {
    /// The localized text for a key in this language.
    pub fn get_text(&self, key: &str) -> (r: &'static str)
        ensures
            r@ == spec_text(*self, key@),
    {
        match self {
            Language::English => get_english_text(key),
            Language::Chinese => get_chinese_text(key),
        }
    }

    /// The English name of the language.
    pub fn name(&self) -> (r: &'static str)
        ensures
            *self == Language::English ==> r@ == "English"@,
            *self == Language::Chinese ==> r@ == "Chinese"@,
    {
        match self {
            Language::English => "English",
            Language::Chinese => "Chinese",
        }
    }

    /// The ISO code of the language.
    pub fn code(&self) -> (r: &'static str)
        ensures
            *self == Language::English ==> r@ == "en"@,
            *self == Language::Chinese ==> r@ == "zh"@,
    {
        match self {
            Language::English => "en",
            Language::Chinese => "zh",
        }
    }

    /// Whether this is the Chinese language.
    pub fn is_chinese(&self) -> (r: bool)
        ensures
            r == (*self == Language::Chinese),
    {
        matches!(self, Language::Chinese)
    }

    /// Whether this is the English language.
    pub fn is_english(&self) -> (r: bool)
        ensures
            r == (*self == Language::English),
    {
        matches!(self, Language::English)
    }
}

/// The language a locale string selects: Chinese for a locale that starts
/// with `zh` or mentions `zh_CN` or `zh_TW`, English otherwise.
pub open spec fn spec_language_for_locale(locale: Seq<char>) -> Language {
    if starts_with(locale, seq!['z', 'h']) || contains_seq(
        locale,
        seq!['z', 'h', '_', 'C', 'N'],
    ) || contains_seq(locale, seq!['z', 'h', '_', 'T', 'W']) {
        Language::Chinese
    } else {
        Language::English
    }
}

/// Classifies a locale string such as `zh_CN.UTF-8` or `en_US.UTF-8`.
pub fn language_for_locale(locale: &str) -> (r: Language)
    ensures
        r == spec_language_for_locale(locale@),
{
    proof {
        reveal_strlit("zh");
        reveal_strlit("zh_CN");
        reveal_strlit("zh_TW");
        assert("zh"@ =~= seq!['z', 'h']);
        assert("zh_CN"@ =~= seq!['z', 'h', '_', 'C', 'N']);
        assert("zh_TW"@ =~= seq!['z', 'h', '_', 'T', 'W']);
    }
    if starts_with_sub(locale, "zh") || contains_sub(locale, "zh_CN") || contains_sub(
        locale,
        "zh_TW",
    ) {
        Language::Chinese
    } else {
        Language::English
    }
}

} // verus!
