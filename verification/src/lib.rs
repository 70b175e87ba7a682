mod board;
mod detector;
mod input;
mod session;

pub use board::Board;
pub use board::CellState;
pub use board::reset_board;
pub use detector::WinState;
pub use detector::check_game_win;
pub use input::map_pointer_to_cell;
pub use session::GameSession;
pub use session::banner_text;
