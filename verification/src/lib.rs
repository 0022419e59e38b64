pub mod editor;
pub mod screen;

pub use editor::Direction;
pub use editor::Editor;
pub use editor::InputEvent;
pub use editor::KeyCode;
pub use editor::KeyPress;
pub use editor::Position;
pub use editor::Size;
pub use screen::CommandModel;
pub use screen::TermCommand;
