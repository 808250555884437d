//! A modal dialog widget core for a terminal user interface: a content
//! widget wrapped with a border, padding, an optional title, and a row of
//! action buttons, together with the size-negotiation protocol, the
//! drawing-plan computation and the keyboard-focus state machine.

pub mod button;
pub mod dialog;
pub mod draw;
pub mod dummy_view;
pub mod event;
pub mod geom;
pub mod request;
pub mod sized_view;
pub mod text_view;
pub mod widget;

pub use button::Button;
pub use dialog::Dialog;
pub use dialog::Focus;
pub use draw::ChildId;
pub use draw::DrawCmd;
pub use dummy_view::DummyView;
pub use event::Callback;
pub use event::EventResult;
pub use event::Key;
pub use geom::Margins;
pub use geom::Vec2;
pub use request::DimensionRequest;
pub use request::SizeRequest;
pub use sized_view::SizedView;
pub use text_view::TextView;
pub use widget::Widget;
