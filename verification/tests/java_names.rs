use wry_android::java::{AppClass, JavaMethod};

#[test]
fn classes_stand_in_the_package() {
    assert_eq!(AppClass::RustWebView.path("com/app"), "com/app/RustWebView");
    assert_eq!(AppClass::RustWebViewClient.path("com/app"), "com/app/RustWebViewClient");
    assert_eq!(AppClass::RustWebChromeClient.path("com/app"), "com/app/RustWebChromeClient");
    assert_eq!(AppClass::Ipc.path("com/app"), "com/app/Ipc");
}

#[test]
fn constructors_have_their_signatures() {
    assert_eq!(
        AppClass::RustWebView.constructor("p"),
        "(Landroid/content/Context;[Ljava/lang/String;Ljava/lang/String;)V"
    );
    assert_eq!(
        AppClass::RustWebViewClient.constructor("p"),
        "(Lp/RustWebView;Landroid/content/Context;)V"
    );
    assert_eq!(AppClass::RustWebChromeClient.constructor("p"), "(Landroid/app/Activity;)V");
    assert_eq!(AppClass::Ipc.constructor("p"), "(Lp/RustWebView;Lp/RustWebViewClient;)V");
}

#[test]
fn methods_have_their_names_and_signatures() {
    let expected = [
        (JavaMethod::HashCode, "hashCode", "()I"),
        (JavaMethod::Equals, "equals", "(Ljava/lang/Object;)Z"),
        (JavaMethod::GetWindowManager, "getWindowManager", "()Landroid/view/WindowManager;"),
        (JavaMethod::GetHost, "getHost", "()Landroid/app/Activity;"),
        (JavaMethod::GetClassLoader, "getClassLoader", "()Ljava/lang/ClassLoader;"),
        (JavaMethod::LoadClass, "loadClass", "(Ljava/lang/String;)Ljava/lang/Class;"),
        (JavaMethod::GetSettings, "getSettings", "()Landroid/webkit/WebSettings;"),
        (
            JavaMethod::SetMediaPlaybackRequiresUserGesture,
            "setMediaPlaybackRequiresUserGesture",
            "(Z)V",
        ),
        (JavaMethod::SetUserAgentString, "setUserAgentString", "(Ljava/lang/String;)V"),
        (JavaMethod::SetJavaScriptEnabled, "setJavaScriptEnabled", "(Z)V"),
        (JavaMethod::SetWebView, "setWebView", "(Lp/q/RustWebView;)V"),
        (JavaMethod::LoadUrl, "loadUrl", "(Ljava/lang/String;)V"),
        (JavaMethod::LoadUrlWithHeaders, "loadUrl", "(Ljava/lang/String;Ljava/util/Map;)V"),
        (JavaMethod::LoadUrlMainThread, "loadUrlMainThread", "(Ljava/lang/String;)V"),
        (
            JavaMethod::LoadUrlWithHeadersMainThread,
            "loadUrlMainThread",
            "(Ljava/lang/String;Ljava/util/Map;)V",
        ),
        (JavaMethod::LoadHtmlMainThread, "loadHTMLMainThread", "(Ljava/lang/String;)V"),
        (JavaMethod::SetWebContentsDebuggingEnabled, "setWebContentsDebuggingEnabled", "(Z)V"),
        (JavaMethod::SetBackgroundColor, "setBackgroundColor", "(I)V"),
        (JavaMethod::SetWebViewClient, "setWebViewClient", "(Landroid/webkit/WebViewClient;)V"),
        (
            JavaMethod::SetWebChromeClient,
            "setWebChromeClient",
            "(Landroid/webkit/WebChromeClient;)V",
        ),
        (
            JavaMethod::AddJavascriptInterface,
            "addJavascriptInterface",
            "(Ljava/lang/Object;Ljava/lang/String;)V",
        ),
        (JavaMethod::AddChildWebView, "addChildWebView", "(Landroid/view/View;IIII)V"),
        (JavaMethod::SetContentView, "setContentView", "(Landroid/view/View;)V"),
        (JavaMethod::EvalScript, "evalScript", "(ILjava/lang/String;)V"),
        (JavaMethod::GetVersion, "getVersion", "()Ljava/lang/String;"),
        (JavaMethod::GetUrl, "getUrl", "()Ljava/lang/String;"),
        (JavaMethod::GetCookies, "getCookies", "(Ljava/lang/String;)Ljava/lang/String;"),
        (JavaMethod::ClearAllBrowsingData, "clearAllBrowsingData", "()V"),
        (JavaMethod::Reload, "reload", "()V"),
        (JavaMethod::SetChildBounds, "setChildBounds", "(Landroid/view/View;IIII)V"),
        (JavaMethod::SetChildVisible, "setChildVisible", "(Landroid/view/View;Z)V"),
        (JavaMethod::RemoveChildWebView, "removeChildWebView", "(Landroid/view/View;)V"),
        (JavaMethod::GetResources, "getResources", "()Landroid/content/res/Resources;"),
        (JavaMethod::GetDisplayMetrics, "getDisplayMetrics", "()Landroid/util/DisplayMetrics;"),
    ];
    for (method, name, signature) in expected.iter() {
        assert_eq!(method.name(), *name);
        assert_eq!(method.signature("p/q"), *signature);
    }
}
