//! What decides how game events reach haptic devices: the session with the device server, the
//! settings, the window and the order in which the program is started and taken down. All of it is
//! verified but for one thing that is trusted: `log::decode`, which reads UTF-8 with the standard
//! library. The program around it does the talking to the network, the game and the screen.
pub mod buttplug;
pub mod config;
pub mod decimal;
pub mod game;
pub mod laws;
pub mod level;
pub mod log;
pub mod session;
pub mod tasks;
pub mod ui;

pub use buttplug::{BPCommand, ClientEvent, GuiEvent};
pub use config::Config;
pub use ui::CsButtplugUi;
