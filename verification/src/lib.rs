//! The verified core of jidori-kun, a webcam app that serves the Model
//! Context Protocol: JSON-RPC request handling, the HTTP endpoint's access
//! rules, the capture bridge to the webview, the server's life cycle, and
//! the settings.

pub mod bridge;
pub mod codec;
pub mod http;
pub mod json;
pub mod rpc;
pub mod server;
pub mod settings;
pub mod text;

pub use bridge::CaptureBridge;
pub use settings::Settings;
