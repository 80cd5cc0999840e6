//! What a webview is created with.
use crate::host::Host;
use crate::registry::Registry;
use std::sync::Arc;
use vstd::prelude::*;

verus! {

/// A colour: red, green, blue and alpha.
pub type RGBA = (u8, u8, u8, u8);

/// A position on the screen. Logical coordinates are held as the bit patterns of the numbers.
#[derive(Clone, Copy, PartialEq, Eq, Structural, Debug)]
pub enum Position {
    /// In physical pixels.
    Physical { x: i32, y: i32 },
    /// In logical pixels.
    Logical { x_bits: u64, y_bits: u64 },
}

/// A size on the screen. Logical extents are held as the bit patterns of the numbers.
#[derive(Clone, Copy, PartialEq, Eq, Structural, Debug)]
pub enum Size {
    /// In physical pixels.
    Physical { width: u32, height: u32 },
    /// In logical pixels.
    Logical { width_bits: u64, height_bits: u64 },
}

/// The bounds of a webview.
#[derive(Clone, Copy, PartialEq, Eq, Structural, Debug)]
pub struct Rect {
    pub position: Position,
    pub size: Size,
}

impl Default for Rect {
    /// The empty bounds at the logical origin.
    fn default() -> (r: Rect)
        ensures
            r == (Rect {
                position: Position::Logical { x_bits: 0, y_bits: 0 },
                size: Size::Logical { width_bits: 0, height_bits: 0 },
            }),
    {
        Rect {
            position: Position::Logical { x_bits: 0, y_bits: 0 },
            size: Size::Logical { width_bits: 0, height_bits: 0 },
        }
    }
}

/// A script that runs before the page's own scripts.
pub struct InitializationScript {
    pub script: String,
}

/// The texts of a list of initialization scripts.
pub open spec fn script_texts(scripts: Seq<InitializationScript>) -> Seq<Seq<char>> {
    scripts.map_values(|s: InitializationScript| s.script@)
}

/// What a caller asks of a new webview.
pub struct WebViewAttributes<H: Host> {
    pub id: Option<String>,
    pub url: Option<String>,
    pub html: Option<String>,
    pub initialization_scripts: Arc<Vec<InitializationScript>>,
    pub ipc_handler: Option<H::IpcHandler>,
    /// Whether the developer tools are on; `None` in a build without them.
    pub devtools: Option<bool>,
    pub custom_protocols: Registry<H::ProtocolHandler>,
    pub background_color: Option<RGBA>,
    pub transparent: bool,
    pub headers: Option<http::HeaderMap>,
    pub autoplay: bool,
    pub user_agent: Option<String>,
    pub javascript_disabled: bool,
    pub document_title_changed_handler: Option<H::TitleHandler>,
    pub navigation_handler: Option<H::NavigationHandler>,
    pub on_page_load_handler: Option<H::PageLoadHandler>,
    pub bounds: Option<Rect>,
}

/// What a caller asks of a new webview on this platform only.
pub struct PlatformSpecificWebViewAttributes<H: Host> {
    pub on_webview_created: Option<H::CreatedHook>,
    pub with_asset_loader: bool,
    pub asset_loader_domain: Option<String>,
    pub https_scheme: bool,
}

/// What the Java webview is created from.
pub struct CreateWebViewAttributes<H: Host> {
    pub id: String,
    pub url: Option<String>,
    pub html: Option<String>,
    /// Whether the developer tools are on; `None` in a build without them.
    pub devtools: Option<bool>,
    pub transparent: bool,
    pub background_color: Option<RGBA>,
    pub headers: Option<http::HeaderMap>,
    pub autoplay: bool,
    pub on_webview_created: Option<H::CreatedHook>,
    pub user_agent: Option<String>,
    pub initialization_scripts: Arc<Vec<InitializationScript>>,
    pub javascript_disabled: bool,
    /// Whether the webview lies in a window of its own above its host, instead of being the
    /// content of the host activity.
    pub is_child: bool,
    /// The first bounds of a child webview, against the host window.
    pub bounds: Option<Rect>,
}

} // verus!
