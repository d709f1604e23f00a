//! Receives controller input from a Nintendo 3DS over UDP and replays it on
//! virtual Xbox 360 controllers: the decisions, without the sockets and devices.

pub mod axis;
pub mod buttons;
pub mod bytes;
pub mod codes;
pub mod controller;
pub mod event;
pub mod packet;
pub mod server;
pub mod state;
pub mod uinput;
pub mod update;

pub use axis::map_axis_i16_to_i32;
pub use buttons::N3DSButtons;
pub use controller::VirtualXboxController;
pub use packet::{RecvInput, Vec2, Vec3, MAGIC_NUMBER, RECV_INPUT_SIZE};
pub use server::N3DSServer;
pub use state::ServerState;
