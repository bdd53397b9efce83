//! Presentation core of the earbud companion: tray status text, the tray
//! menu, the status icon raster, the window lifecycle and the pane model.

pub mod icon;
pub mod messages;
pub mod navigation;
pub mod text;
pub mod theme;
pub mod tray;
pub mod window;

pub use messages::{AACPEvent, BatteryComponent, BatteryStatus, ControlCommandIdentifiers, UICommand, UIMessage};
pub use text::{decimal_text, text_le};
pub use tray::{ListeningOption, MyTray, ToolTipText};
pub use icon::{icon_from_rgba, pixel_in_ring, ring_gauge_rgba, text_origin, transparent_icon, IconImage, ICON_BYTES, ICON_PIXELS, ICON_SIDE, TEXT_TOP};
pub use theme::{load_theme, settings_text, theme_choices, theme_from_stored_name, MyTheme};
pub use window::{App, BluetoothState, Effect, EventBridge, Message, Pane, Tab, WindowHandle, WindowState};
pub use navigation::{content_view, detail_rows, find_device, settings_selected, sidebar_entries, sidebar_order, tab_matches, AirPodsInformation, ContentView, DetailRow, DeviceData, DeviceInformation, DeviceType, SidebarEntry};
