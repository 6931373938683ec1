//! Launching apps, waiting, screenshots and the end of a task.

use vstd::prelude::*;
use crate::agent::actions::base::{description_of, fault_of, kind_name, validated};
use crate::agent::engine::traits::{opt_text, ActionError, ActionView};
use crate::text::{
    chars_of, concat2, concat3, find_char_from, first_char_index, lowercase, push_decimal,
    push_text, same_text, string_of, to_lowercase,
};

verus! {

/// The known aliases of apps, each with the package it stands for.
pub open spec fn app_packages() -> Seq<(Seq<char>, Seq<char>)> {
    seq![
        ("微信"@, "com.tencent.mm"@),
        ("wechat"@, "com.tencent.mm"@),
        ("qq"@, "com.tencent.mobileqq"@),
        ("微博"@, "com.sina.weibo"@),
        ("钉钉"@, "com.alibaba.android.rimet"@),
        ("抖音"@, "com.ss.android.ugc.aweme"@),
        ("快手"@, "com.smile.gifmaker"@),
        ("淘宝"@, "com.taobao.taobao"@),
        ("天猫"@, "com.tmall.wireless"@),
        ("京东"@, "com.jingdong.app.mall"@),
        ("拼多多"@, "com.xunmeng.pinduoduo"@),
        ("腾讯视频"@, "com.tencent.qqlive"@),
        ("爱奇艺"@, "com.qiyi.video"@),
        ("优酷"@, "com.youku.phone"@),
        ("哔哩哔哩"@, "tv.danmaku.bili"@),
        ("bilibili"@, "tv.danmaku.bili"@),
        ("网易云音乐"@, "com.netease.cloudmusic"@),
        ("qq音乐"@, "com.tencent.qqmusic"@),
        ("酷狗音乐"@, "com.kugou.android"@),
        ("支付宝"@, "com.eg.android.AlipayGphone"@),
        ("alipay"@, "com.eg.android.AlipayGphone"@),
        ("邮箱"@, "com.android.email"@),
        ("文件管理"@, "com.android.filemanager"@),
        ("设置"@, "com.android.settings"@),
        ("相机"@, "com.android.camera"@),
        ("gallery"@, "com.android.gallery3d"@),
        ("图库"@, "com.android.gallery3d"@),
        ("chrome"@, "com.android.chrome"@),
        ("浏览器"@, "com.android.browser"@),
        ("uc浏览器"@, "com.uc.browser"@),
        ("电话"@, "com.android.contacts"@),
        ("短信"@, "com.android.mms"@),
        ("日历"@, "com.android.calendar"@),
        ("时钟"@, "com.android.deskclock"@),
        ("计算器"@, "com.android.calculator2"@),
    ]
}

/// The package of the first entry of `table` whose alias is `name`.
pub open spec fn alias_in(table: Seq<(Seq<char>, Seq<char>)>, name: Seq<char>) -> Option<
    Seq<char>,
>
    decreases table.len(),
{
    if table.len() == 0 {
        None
    } else if table[0].0 == name {
        Some(table[0].1)
    } else {
        alias_in(table.drop_first(), name)
    }
}

/// Whether a name has the form of a package identifier: it holds a dot.
pub open spec fn is_package_name(name: Seq<char>) -> bool {
    first_char_index(name, '.', 0) >= 0
}

/// The package that an app name stands for: the package of the alias as
/// written; else that of the alias in lower case; else the name itself
/// where it has the form of a package identifier; else none.
pub open spec fn package_for(name: Seq<char>) -> Option<Seq<char>> {
    package_given(name, lowercase(name))
}

/// The package that an app name stands for, given the name in lower case
/// as well: the package of the alias as written; else that of the alias
/// in lower case; else the name itself where it has the form of a package
/// identifier; else none.
pub open spec fn package_given(name: Seq<char>, lower: Seq<char>) -> Option<Seq<char>> {
    if alias_in(app_packages(), name) is Some {
        alias_in(app_packages(), name)
    } else if alias_in(app_packages(), lower) is Some {
        alias_in(app_packages(), lower)
    } else if is_package_name(name) {
        Some(name)
    } else {
        None
    }
}

/// The known aliases of apps, each with the package it stands for.
pub fn get_app_packages() -> (table: Vec<(&'static str, &'static str)>)
    ensures
        table.deep_view() == app_packages(),
{
    let table = vec![
        ("微信", "com.tencent.mm"),
        ("wechat", "com.tencent.mm"),
        ("qq", "com.tencent.mobileqq"),
        ("微博", "com.sina.weibo"),
        ("钉钉", "com.alibaba.android.rimet"),
        ("抖音", "com.ss.android.ugc.aweme"),
        ("快手", "com.smile.gifmaker"),
        ("淘宝", "com.taobao.taobao"),
        ("天猫", "com.tmall.wireless"),
        ("京东", "com.jingdong.app.mall"),
        ("拼多多", "com.xunmeng.pinduoduo"),
        ("腾讯视频", "com.tencent.qqlive"),
        ("爱奇艺", "com.qiyi.video"),
        ("优酷", "com.youku.phone"),
        ("哔哩哔哩", "tv.danmaku.bili"),
        ("bilibili", "tv.danmaku.bili"),
        ("网易云音乐", "com.netease.cloudmusic"),
        ("qq音乐", "com.tencent.qqmusic"),
        ("酷狗音乐", "com.kugou.android"),
        ("支付宝", "com.eg.android.AlipayGphone"),
        ("alipay", "com.eg.android.AlipayGphone"),
        ("邮箱", "com.android.email"),
        ("文件管理", "com.android.filemanager"),
        ("设置", "com.android.settings"),
        ("相机", "com.android.camera"),
        ("gallery", "com.android.gallery3d"),
        ("图库", "com.android.gallery3d"),
        ("chrome", "com.android.chrome"),
        ("浏览器", "com.android.browser"),
        ("uc浏览器", "com.uc.browser"),
        ("电话", "com.android.contacts"),
        ("短信", "com.android.mms"),
        ("日历", "com.android.calendar"),
        ("时钟", "com.android.deskclock"),
        ("计算器", "com.android.calculator2"),
    ];
    proof {
        assert(table.deep_view() =~= app_packages());
    }
    table
}

fn alias_lookup(table: &Vec<(&'static str, &'static str)>, name: &str) -> (r: Option<String>)
    ensures
        opt_text(r) == alias_in(table.deep_view(), name@),
{
    let ghost whole = table.deep_view();
    let mut i: usize = 0;
    proof {
        assert(whole.skip(0) =~= whole);
    }
    while i < table.len()
        invariant
            i <= table@.len(),
            whole == table.deep_view(),
            alias_in(whole, name@) == alias_in(whole.skip(i as int), name@),
        decreases table@.len() - i,
    {
        proof {
            assert(whole.skip(i as int).drop_first() =~= whole.skip(i + 1));
            assert(whole.skip(i as int)[0] == whole[i as int]);
        }
        if same_text(table[i].0, name) {
            return Some(table[i].1.to_owned());
        }
        i += 1;
    }
    None
}

/// Whether a name has the form of a package identifier.
pub fn has_dot(name: &str) -> (b: bool)
    ensures
        b == is_package_name(name@),
{
    let v = chars_of(name);
    find_char_from(v.as_slice(), '.', 0).is_some()
}

/// The package that an app name stands for, if any.
pub fn app_name_to_package(app_name: &str) -> (r: Option<String>)
    ensures
        opt_text(r) == package_for(app_name@),
{
    let lower = to_lowercase(app_name);
    package_with_lowered(app_name, lower.as_str())
}

/// The package that an app name stands for, if any, given the name in
/// lower case as well.
pub fn package_with_lowered(app_name: &str, lower: &str) -> (r: Option<String>)
    ensures
        opt_text(r) == package_given(app_name@, lower@),
{
    let table = get_app_packages();
    let direct = alias_lookup(&table, app_name);
    if direct.is_some() {
        return direct;
    }
    let folded = alias_lookup(&table, lower);
    if folded.is_some() {
        return folded;
    }
    if has_dot(app_name) {
        return Some(app_name.to_owned());
    }
    None
}

/// The launch of an app, named by its package or by an alias.
#[derive(Debug, Clone, PartialEq, Eq)]
pub struct LaunchAction {
    pub package: String,
    pub activity: Option<String>,
    pub description: Option<String>,
}

impl View for LaunchAction {
    type V = ActionView;

    open spec fn view(&self) -> ActionView {
        ActionView::Launch {
            package: self.package@,
            activity: opt_text(self.activity),
            description: opt_text(self.description),
        }
    }
}

/// The package that a launch starts: the package as written where it has
/// the form of a package identifier, else the package of the alias.
pub open spec fn launch_target(package: Seq<char>) -> Option<Seq<char>> {
    if is_package_name(package) {
        Some(package)
    } else {
        package_for(package)
    }
}

impl LaunchAction {
    /// The launch of the app that `app_name` stands for; none where the
    /// name is unknown.
    pub fn from_app_name(app_name: &str) -> (r: Option<Self>)
        ensures
            match r {
                Some(a) => package_for(app_name@) == Some(a.package@) && a.activity is None
                    && opt_text(a.description) == Some("启动应用: "@ + app_name@),
                None => package_for(app_name@) is None,
            },
    {
        match app_name_to_package(app_name) {
            Some(package) => Some(
                Self {
                    package,
                    activity: None,
                    description: Some(concat2("启动应用: ", app_name)),
                },
            ),
            None => None,
        }
    }

    pub fn action_type(&self) -> (r: String)
        ensures
            r@ == kind_name(self@),
    {
        "launch".to_owned()
    }

    /// Accepts the launch if the package is not empty and is either a
    /// package identifier or a known alias.
    pub fn validate(&self) -> (r: Result<(), ActionError>)
        ensures
            validated(r, self@),
    {
        if self.package.as_str().is_empty() {
            return Err(ActionError::InvalidParameters("应用名称不能为空".to_owned()));
        }
        if !has_dot(self.package.as_str()) {
            if app_name_to_package(self.package.as_str()).is_none() {
                return Err(
                    ActionError::InvalidParameters(
                        concat3("暂时没有 ", self.package.as_str(), " 对应的包名 可以在Home页其他页面查找一下"),
                    ),
                );
            }
        }
        Ok(())
    }

    pub fn description(&self) -> (r: String)
        ensures
            r@ == description_of(self@),
    {
        match &self.description {
            Some(d) => d.clone(),
            None => concat2("启动应用: ", self.package.as_str()),
        }
    }

    /// The package to start, or none where the alias is unknown.
    pub fn target_package(&self) -> (r: Option<String>)
        ensures
            opt_text(r) == launch_target(self.package@),
    {
        if has_dot(self.package.as_str()) {
            Some(self.package.clone())
        } else {
            app_name_to_package(self.package.as_str())
        }
    }
}

/// A pause of `duration_ms`.
#[derive(Debug, Clone, PartialEq, Eq)]
pub struct WaitAction {
    pub duration_ms: u32,
    pub reason: Option<String>,
}

impl View for WaitAction {
    type V = ActionView;

    open spec fn view(&self) -> ActionView {
        ActionView::Wait { duration_ms: self.duration_ms, reason: opt_text(self.reason) }
    }
}

impl WaitAction {
    pub fn action_type(&self) -> (r: String)
        ensures
            r@ == kind_name(self@),
    {
        "wait".to_owned()
    }

    /// Accepts the wait if it lasts at most 60000 ms.
    pub fn validate(&self) -> (r: Result<(), ActionError>)
        ensures
            validated(r, self@),
    {
        if self.duration_ms > 60000 {
            return Err(ActionError::DurationTooLong(self.duration_ms));
        }
        Ok(())
    }

    pub fn description(&self) -> (r: String)
        ensures
            r@ == description_of(self@),
    {
        match &self.reason {
            Some(d) => d.clone(),
            None => {
                let mut v = chars_of("等待 ");
                push_decimal(&mut v, self.duration_ms as u64);
                push_text(&mut v, "ms");
                string_of(v.as_slice())
            },
        }
    }
}

/// A screenshot of the device.
#[derive(Debug, Clone, PartialEq, Eq)]
pub struct ScreenshotAction {
    pub description: Option<String>,
}

impl View for ScreenshotAction {
    type V = ActionView;

    open spec fn view(&self) -> ActionView {
        ActionView::Screenshot { description: opt_text(self.description) }
    }
}

impl ScreenshotAction {
    pub fn action_type(&self) -> (r: String)
        ensures
            r@ == kind_name(self@),
    {
        "screenshot".to_owned()
    }

    /// Always acceptable: there is no parameter to check.
    pub fn validate(&self) -> (r: Result<(), ActionError>)
        ensures
            validated(r, self@),
    {
        Ok(())
    }

    pub fn description(&self) -> (r: String)
        ensures
            r@ == description_of(self@),
    {
        match &self.description {
            Some(d) => d.clone(),
            None => "截图".to_owned(),
        }
    }
}

/// The declaration that the task is concluded.
#[derive(Debug, Clone, PartialEq, Eq)]
pub struct FinishAction {
    pub result: String,
    pub success: bool,
}

impl View for FinishAction {
    type V = ActionView;

    open spec fn view(&self) -> ActionView {
        ActionView::Finish { result: self.result@, success: self.success }
    }
}

impl FinishAction {
    pub fn action_type(&self) -> (r: String)
        ensures
            r@ == kind_name(self@),
    {
        "finish".to_owned()
    }

    /// Always acceptable.
    pub fn validate(&self) -> (r: Result<(), ActionError>)
        ensures
            validated(r, self@),
    {
        Ok(())
    }

    pub fn description(&self) -> (r: String)
        ensures
            r@ == description_of(self@),
    {
        concat2("完成任务: ", self.result.as_str())
    }
}

} // verus!
