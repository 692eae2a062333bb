[package]
name = "wry"
version = "0.1.0"
edition = "2021"
publish = false

[dependencies]
http = "=1.5.0"
dpi = "=0.1.2"
raw-window-handle = { version = "=0.6.2", features = ["std"] }
once_cell = "=1.21.4"
block2 = "=0.5.1"
objc2 = { version = "=0.5.3", features = ["exception"] }
objc2-foundation = { version = "=0.2.2", features = ["NSArray", "NSBundle", "NSData", "NSDate", "NSDictionary", "NSEnumerator", "NSError", "NSGeometry", "NSJSONSerialization", "NSKeyValueCoding", "NSObject", "NSProcessInfo", "NSSet", "NSString", "NSThread", "NSURL", "NSURLRequest", "NSUUID", "NSValue"] }
objc2-app-kit = { version = "=0.2.2", features = ["NSApplication", "NSPrintInfo", "NSPrintOperation", "NSResponder", "NSView", "NSWindow"] }
objc2-web-kit = { version = "=0.2.2", features = ["WKNavigation", "WKNavigationDelegate", "WKPreferences", "WKUIDelegate", "WKURLSchemeHandler", "WKUserContentController", "WKUserScript", "WKWebView", "WKWebViewConfiguration", "WKWebsiteDataStore", "block2", "objc2-app-kit"] }
