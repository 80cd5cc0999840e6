//! The Java methods and classes that the backend uses.
use vstd::prelude::*;

verus! {

/// A method of a Java object.
#[derive(Clone, Copy, PartialEq, Eq, Structural, Debug)]
pub enum JavaMethod {
    /// The hash code of an object.
    HashCode,
    /// Whether two objects are equal.
    Equals,
    /// The window manager of an activity.
    GetWindowManager,
    /// The activity that hosts the webviews.
    GetHost,
    /// The class loader that sees the classes of the application.
    GetClassLoader,
    /// Loads a class by its dotted name.
    LoadClass,
    /// The settings of a webview.
    GetSettings,
    /// Whether media plays only after a gesture.
    SetMediaPlaybackRequiresUserGesture,
    /// Sets the user agent.
    SetUserAgentString,
    /// Switches scripts on or off.
    SetJavaScriptEnabled,
    /// Gives the back button to a webview.
    SetWebView,
    /// Loads a URL.
    LoadUrl,
    /// Loads a URL with headers.
    LoadUrlWithHeaders,
    /// Loads a URL, from the main thread.
    LoadUrlMainThread,
    /// Loads a URL with headers, from the main thread.
    LoadUrlWithHeadersMainThread,
    /// Loads a page from its text.
    LoadHtmlMainThread,
    /// Switches the developer tools on or off.
    SetWebContentsDebuggingEnabled,
    /// Sets the background colour.
    SetBackgroundColor,
    /// Sets the client that sees the requests.
    SetWebViewClient,
    /// Sets the client that sees the dialogs.
    SetWebChromeClient,
    /// Makes an object known to the scripts.
    AddJavascriptInterface,
    /// Mounts a webview in a window of its own.
    AddChildWebView,
    /// Mounts a webview as the content of the activity.
    SetContentView,
    /// Evaluates a script.
    EvalScript,
    /// The version of the webview.
    GetVersion,
    /// The current URL.
    GetUrl,
    /// The cookies for a URL.
    GetCookies,
    /// Forgets all browsing data.
    ClearAllBrowsingData,
    /// Loads the page again.
    Reload,
    /// Moves and resizes the window of a child.
    SetChildBounds,
    /// Shows or hides the window of a child.
    SetChildVisible,
    /// Takes the window of a child away.
    RemoveChildWebView,
    /// The resources of an activity.
    GetResources,
    /// The measures of the display.
    GetDisplayMetrics,
}

/// A class of the application package.
#[derive(Clone, Copy, PartialEq, Eq, Structural, Debug)]
pub enum AppClass {
    /// The webview.
    RustWebView,
    /// The client that sees the requests.
    RustWebViewClient,
    /// The client that sees the dialogs.
    RustWebChromeClient,
    /// The object that takes the messages of a page.
    Ipc,
}

/// The type signature of objects of a class.
pub open spec fn object_type(path: Seq<char>) -> Seq<char> {
    "L"@ + path + ";"@
}

impl JavaMethod {
    /// The name of the method.
    pub open spec fn name_text(self) -> Seq<char> {
        match self {
            JavaMethod::HashCode => "hashCode"@,
            JavaMethod::Equals => "equals"@,
            JavaMethod::GetWindowManager => "getWindowManager"@,
            JavaMethod::GetHost => "getHost"@,
            JavaMethod::GetClassLoader => "getClassLoader"@,
            JavaMethod::LoadClass => "loadClass"@,
            JavaMethod::GetSettings => "getSettings"@,
            JavaMethod::SetMediaPlaybackRequiresUserGesture => "setMediaPlaybackRequiresUserGesture"@,
            JavaMethod::SetUserAgentString => "setUserAgentString"@,
            JavaMethod::SetJavaScriptEnabled => "setJavaScriptEnabled"@,
            JavaMethod::SetWebView => "setWebView"@,
            JavaMethod::LoadUrl => "loadUrl"@,
            JavaMethod::LoadUrlWithHeaders => "loadUrl"@,
            JavaMethod::LoadUrlMainThread => "loadUrlMainThread"@,
            JavaMethod::LoadUrlWithHeadersMainThread => "loadUrlMainThread"@,
            JavaMethod::LoadHtmlMainThread => "loadHTMLMainThread"@,
            JavaMethod::SetWebContentsDebuggingEnabled => "setWebContentsDebuggingEnabled"@,
            JavaMethod::SetBackgroundColor => "setBackgroundColor"@,
            JavaMethod::SetWebViewClient => "setWebViewClient"@,
            JavaMethod::SetWebChromeClient => "setWebChromeClient"@,
            JavaMethod::AddJavascriptInterface => "addJavascriptInterface"@,
            JavaMethod::AddChildWebView => "addChildWebView"@,
            JavaMethod::SetContentView => "setContentView"@,
            JavaMethod::EvalScript => "evalScript"@,
            JavaMethod::GetVersion => "getVersion"@,
            JavaMethod::GetUrl => "getUrl"@,
            JavaMethod::GetCookies => "getCookies"@,
            JavaMethod::ClearAllBrowsingData => "clearAllBrowsingData"@,
            JavaMethod::Reload => "reload"@,
            JavaMethod::SetChildBounds => "setChildBounds"@,
            JavaMethod::SetChildVisible => "setChildVisible"@,
            JavaMethod::RemoveChildWebView => "removeChildWebView"@,
            JavaMethod::GetResources => "getResources"@,
            JavaMethod::GetDisplayMetrics => "getDisplayMetrics"@,
        }
    }

    /// The type signature of the method, for the application package `package`.
    pub open spec fn signature_text(self, package: Seq<char>) -> Seq<char> {
        match self {
            JavaMethod::HashCode => "()I"@,
            JavaMethod::Equals => "(Ljava/lang/Object;)Z"@,
            JavaMethod::GetWindowManager => "()Landroid/view/WindowManager;"@,
            JavaMethod::GetHost => "()Landroid/app/Activity;"@,
            JavaMethod::GetClassLoader => "()Ljava/lang/ClassLoader;"@,
            JavaMethod::LoadClass => "(Ljava/lang/String;)Ljava/lang/Class;"@,
            JavaMethod::GetSettings => "()Landroid/webkit/WebSettings;"@,
            JavaMethod::SetMediaPlaybackRequiresUserGesture => "(Z)V"@,
            JavaMethod::SetUserAgentString => "(Ljava/lang/String;)V"@,
            JavaMethod::SetJavaScriptEnabled => "(Z)V"@,
            JavaMethod::SetWebView => "("@ + object_type(
                AppClass::RustWebView.path_text(package),
            ) + ")V"@,
            JavaMethod::LoadUrl => "(Ljava/lang/String;)V"@,
            JavaMethod::LoadUrlWithHeaders => "(Ljava/lang/String;Ljava/util/Map;)V"@,
            JavaMethod::LoadUrlMainThread => "(Ljava/lang/String;)V"@,
            JavaMethod::LoadUrlWithHeadersMainThread => "(Ljava/lang/String;Ljava/util/Map;)V"@,
            JavaMethod::LoadHtmlMainThread => "(Ljava/lang/String;)V"@,
            JavaMethod::SetWebContentsDebuggingEnabled => "(Z)V"@,
            JavaMethod::SetBackgroundColor => "(I)V"@,
            JavaMethod::SetWebViewClient => "(Landroid/webkit/WebViewClient;)V"@,
            JavaMethod::SetWebChromeClient => "(Landroid/webkit/WebChromeClient;)V"@,
            JavaMethod::AddJavascriptInterface => "(Ljava/lang/Object;Ljava/lang/String;)V"@,
            JavaMethod::AddChildWebView => "(Landroid/view/View;IIII)V"@,
            JavaMethod::SetContentView => "(Landroid/view/View;)V"@,
            JavaMethod::EvalScript => "(ILjava/lang/String;)V"@,
            JavaMethod::GetVersion => "()Ljava/lang/String;"@,
            JavaMethod::GetUrl => "()Ljava/lang/String;"@,
            JavaMethod::GetCookies => "(Ljava/lang/String;)Ljava/lang/String;"@,
            JavaMethod::ClearAllBrowsingData => "()V"@,
            JavaMethod::Reload => "()V"@,
            JavaMethod::SetChildBounds => "(Landroid/view/View;IIII)V"@,
            JavaMethod::SetChildVisible => "(Landroid/view/View;Z)V"@,
            JavaMethod::RemoveChildWebView => "(Landroid/view/View;)V"@,
            JavaMethod::GetResources => "()Landroid/content/res/Resources;"@,
            JavaMethod::GetDisplayMetrics => "()Landroid/util/DisplayMetrics;"@,
        }
    }

    /// The name of the method.
    pub fn name(self) -> (r: &'static str)
        ensures
            r@ == self.name_text(),
    {
        match self {
            JavaMethod::HashCode => "hashCode",
            JavaMethod::Equals => "equals",
            JavaMethod::GetWindowManager => "getWindowManager",
            JavaMethod::GetHost => "getHost",
            JavaMethod::GetClassLoader => "getClassLoader",
            JavaMethod::LoadClass => "loadClass",
            JavaMethod::GetSettings => "getSettings",
            JavaMethod::SetMediaPlaybackRequiresUserGesture => "setMediaPlaybackRequiresUserGesture",
            JavaMethod::SetUserAgentString => "setUserAgentString",
            JavaMethod::SetJavaScriptEnabled => "setJavaScriptEnabled",
            JavaMethod::SetWebView => "setWebView",
            JavaMethod::LoadUrl => "loadUrl",
            JavaMethod::LoadUrlWithHeaders => "loadUrl",
            JavaMethod::LoadUrlMainThread => "loadUrlMainThread",
            JavaMethod::LoadUrlWithHeadersMainThread => "loadUrlMainThread",
            JavaMethod::LoadHtmlMainThread => "loadHTMLMainThread",
            JavaMethod::SetWebContentsDebuggingEnabled => "setWebContentsDebuggingEnabled",
            JavaMethod::SetBackgroundColor => "setBackgroundColor",
            JavaMethod::SetWebViewClient => "setWebViewClient",
            JavaMethod::SetWebChromeClient => "setWebChromeClient",
            JavaMethod::AddJavascriptInterface => "addJavascriptInterface",
            JavaMethod::AddChildWebView => "addChildWebView",
            JavaMethod::SetContentView => "setContentView",
            JavaMethod::EvalScript => "evalScript",
            JavaMethod::GetVersion => "getVersion",
            JavaMethod::GetUrl => "getUrl",
            JavaMethod::GetCookies => "getCookies",
            JavaMethod::ClearAllBrowsingData => "clearAllBrowsingData",
            JavaMethod::Reload => "reload",
            JavaMethod::SetChildBounds => "setChildBounds",
            JavaMethod::SetChildVisible => "setChildVisible",
            JavaMethod::RemoveChildWebView => "removeChildWebView",
            JavaMethod::GetResources => "getResources",
            JavaMethod::GetDisplayMetrics => "getDisplayMetrics",
        }
    }

    /// The type signature of the method, for the application package `package`.
    pub fn signature(self, package: &str) -> (r: String)
        ensures
            r@ == self.signature_text(package@),
    {
        match self {
            JavaMethod::HashCode => "()I".to_owned(),
            JavaMethod::Equals => "(Ljava/lang/Object;)Z".to_owned(),
            JavaMethod::GetWindowManager => "()Landroid/view/WindowManager;".to_owned(),
            JavaMethod::GetHost => "()Landroid/app/Activity;".to_owned(),
            JavaMethod::GetClassLoader => "()Ljava/lang/ClassLoader;".to_owned(),
            JavaMethod::LoadClass => "(Ljava/lang/String;)Ljava/lang/Class;".to_owned(),
            JavaMethod::GetSettings => "()Landroid/webkit/WebSettings;".to_owned(),
            JavaMethod::SetMediaPlaybackRequiresUserGesture => "(Z)V".to_owned(),
            JavaMethod::SetUserAgentString => "(Ljava/lang/String;)V".to_owned(),
            JavaMethod::SetJavaScriptEnabled => "(Z)V".to_owned(),
            JavaMethod::SetWebView => {
                let webview = object_type_of(AppClass::RustWebView.path(package).as_str());
                "(".to_owned().concat(webview.as_str()).concat(")V")
            },
            JavaMethod::LoadUrl => "(Ljava/lang/String;)V".to_owned(),
            JavaMethod::LoadUrlWithHeaders => "(Ljava/lang/String;Ljava/util/Map;)V".to_owned(),
            JavaMethod::LoadUrlMainThread => "(Ljava/lang/String;)V".to_owned(),
            JavaMethod::LoadUrlWithHeadersMainThread => "(Ljava/lang/String;Ljava/util/Map;)V".to_owned(),
            JavaMethod::LoadHtmlMainThread => "(Ljava/lang/String;)V".to_owned(),
            JavaMethod::SetWebContentsDebuggingEnabled => "(Z)V".to_owned(),
            JavaMethod::SetBackgroundColor => "(I)V".to_owned(),
            JavaMethod::SetWebViewClient => "(Landroid/webkit/WebViewClient;)V".to_owned(),
            JavaMethod::SetWebChromeClient => "(Landroid/webkit/WebChromeClient;)V".to_owned(),
            JavaMethod::AddJavascriptInterface => "(Ljava/lang/Object;Ljava/lang/String;)V".to_owned(),
            JavaMethod::AddChildWebView => "(Landroid/view/View;IIII)V".to_owned(),
            JavaMethod::SetContentView => "(Landroid/view/View;)V".to_owned(),
            JavaMethod::EvalScript => "(ILjava/lang/String;)V".to_owned(),
            JavaMethod::GetVersion => "()Ljava/lang/String;".to_owned(),
            JavaMethod::GetUrl => "()Ljava/lang/String;".to_owned(),
            JavaMethod::GetCookies => "(Ljava/lang/String;)Ljava/lang/String;".to_owned(),
            JavaMethod::ClearAllBrowsingData => "()V".to_owned(),
            JavaMethod::Reload => "()V".to_owned(),
            JavaMethod::SetChildBounds => "(Landroid/view/View;IIII)V".to_owned(),
            JavaMethod::SetChildVisible => "(Landroid/view/View;Z)V".to_owned(),
            JavaMethod::RemoveChildWebView => "(Landroid/view/View;)V".to_owned(),
            JavaMethod::GetResources => "()Landroid/content/res/Resources;".to_owned(),
            JavaMethod::GetDisplayMetrics => "()Landroid/util/DisplayMetrics;".to_owned(),
        }
    }
}

/// The type signature of objects of a class.
fn object_type_of(path: &str) -> (r: String)
    ensures
        r@ == object_type(path@),
{
    "L".to_owned().concat(path).concat(";")
}

impl AppClass {
    /// The name of the class inside its package.
    pub open spec fn simple_name(self) -> Seq<char> {
        match self {
            AppClass::RustWebView => "RustWebView"@,
            AppClass::RustWebViewClient => "RustWebViewClient"@,
            AppClass::RustWebChromeClient => "RustWebChromeClient"@,
            AppClass::Ipc => "Ipc"@,
        }
    }

    /// The name of the class with its package, with slashes.
    pub open spec fn path_text(self, package: Seq<char>) -> Seq<char> {
        package + "/"@ + self.simple_name()
    }

    /// The type signature of the constructor, for the application package `package`.
    pub open spec fn constructor_text(self, package: Seq<char>) -> Seq<char> {
        let webview = object_type(AppClass::RustWebView.path_text(package));
        let client = object_type(AppClass::RustWebViewClient.path_text(package));
        match self {
            AppClass::RustWebView => {
                "(Landroid/content/Context;[Ljava/lang/String;Ljava/lang/String;)V"@
            },
            AppClass::RustWebViewClient => "("@ + webview + "Landroid/content/Context;)V"@,
            AppClass::RustWebChromeClient => "(Landroid/app/Activity;)V"@,
            AppClass::Ipc => "("@ + webview + client + ")V"@,
        }
    }

    /// The name of the class with its package, with slashes.
    pub fn path(self, package: &str) -> (r: String)
        ensures
            r@ == self.path_text(package@),
    {
        let simple = match self {
            AppClass::RustWebView => "RustWebView",
            AppClass::RustWebViewClient => "RustWebViewClient",
            AppClass::RustWebChromeClient => "RustWebChromeClient",
            AppClass::Ipc => "Ipc",
        };
        package.to_owned().concat("/").concat(simple)
    }

    /// The type signature of the constructor, for the application package `package`.
    pub fn constructor(self, package: &str) -> (r: String)
        ensures
            r@ == self.constructor_text(package@),
    {
        let webview = object_type_of(AppClass::RustWebView.path(package).as_str());
        let client = object_type_of(AppClass::RustWebViewClient.path(package).as_str());
        match self {
            AppClass::RustWebView => {
                "(Landroid/content/Context;[Ljava/lang/String;Ljava/lang/String;)V".to_owned()
            },
            AppClass::RustWebViewClient => {
                "(".to_owned().concat(webview.as_str()).concat("Landroid/content/Context;)V")
            },
            AppClass::RustWebChromeClient => "(Landroid/app/Activity;)V".to_owned(),
            AppClass::Ipc => {
                "(".to_owned().concat(webview.as_str()).concat(client.as_str()).concat(")V")
            },
        }
    }
}

/// Two Java objects are compared by `equals`.
pub proof fn objects_are_compared_by_equals(package: Seq<char>)
    ensures
        JavaMethod::Equals.name_text() == "equals"@,
        JavaMethod::Equals.signature_text(package) == "(Ljava/lang/Object;)Z"@,
{
}

} // verus!
