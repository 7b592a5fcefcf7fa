use tictactoe::game::CellState;
use tictactoe::game::GameState;
use tictactoe::geometry::Viewport;
use tictactoe::render::draw_cell_marks;
use tictactoe::render::draw_current_player;
use tictactoe::render::draw_frame;
use tictactoe::render::draw_grid;
use tictactoe::render::draw_message_dialog;
use tictactoe::render::draw_winner_line;
use tictactoe::render::init_commands;
use tictactoe::render::message_text;
use tictactoe::render::Color;
use tictactoe::render::DrawCmd;
use tictactoe::render::LineJoin;
use tictactoe::render::Message;
use tictactoe::state::AppState;

const VP: Viewport = Viewport { width: 600, height: 800 };

#[test]
fn colors_pack_one_byte_per_channel() {
    assert_eq!(Color::rgb(0, 0, 0).0, 0x000000ff);
    assert_eq!(Color::rgb(255, 0, 0).0, 0xff0000ff);
    assert_eq!(Color::rgba(255, 255, 255, 189).0, 0xffffffbd);
    assert_eq!(Color::rgba(0x11, 0x22, 0x33, 0x44).0, 0x11223344);
}

#[test]
fn to_bytes_unpacks_the_packed_channels() {
    assert_eq!(Color(0x11223344).to_bytes(), (0x11, 0x22, 0x33, 0x44));
    assert_eq!(Color::rgb(1, 2, 3).to_bytes(), (1, 2, 3, 255));
    assert_eq!(Color(0).to_bytes(), (0, 0, 0, 0));
}

#[test]
fn marks_draw_in_black_and_red() {
    assert_eq!(CellState::X.get_color(), Color(0x000000ff));
    assert_eq!(CellState::O.get_color(), Color(0xff0000ff));
}

#[test]
fn dialog_messages_have_their_display_text() {
    assert_eq!(message_text(Message::XWon), "X has won");
    assert_eq!(message_text(Message::OWon), "O has won");
    assert_eq!(message_text(Message::Drawn), "a draw occurred");
    assert_eq!(message_text(Message::Error), "Error");
}

#[test]
fn init_sets_round_line_joins() {
    assert_eq!(init_commands(), vec![DrawCmd::Join { style: LineJoin::Round }]);
}

#[test]
fn grid_draws_two_vertical_and_two_horizontal_lines() {
    let cmds = draw_grid(VP);
    assert_eq!(
        cmds,
        vec![
            DrawCmd::Line { x1: 200, y1: 200, x2: 200, y2: 800 },
            DrawCmd::Line { x1: 0, y1: 400, x2: 600, y2: 400 },
            DrawCmd::Line { x1: 400, y1: 200, x2: 400, y2: 800 },
            DrawCmd::Line { x1: 0, y1: 600, x2: 600, y2: 600 },
        ]
    );
}

#[test]
fn current_player_cross_is_two_padded_diagonals() {
    let cmds = draw_current_player(CellState::X, VP);
    assert_eq!(
        cmds,
        vec![
            DrawCmd::StrokeThickness { px: 10 },
            DrawCmd::StrokeColor { color: Color(0x000000ff) },
            DrawCmd::Line { x1: 210, y1: 10, x2: 390, y2: 190 },
            DrawCmd::Line { x1: 390, y1: 10, x2: 210, y2: 190 },
        ]
    );
}

#[test]
fn current_player_ring_is_a_padded_circle() {
    let cmds = draw_current_player(CellState::O, VP);
    assert_eq!(
        cmds,
        vec![
            DrawCmd::StrokeThickness { px: 10 },
            DrawCmd::StrokeColor { color: Color(0xff0000ff) },
            DrawCmd::Circle { x: 300, y: 100, r: 90 },
        ]
    );
}

#[test]
fn dialog_panel_is_centered_in_the_board_square() {
    let cmds = draw_message_dialog(Message::Drawn, VP);
    assert_eq!(
        cmds,
        vec![
            DrawCmd::FillColor { color: Color(0xffffffbd) },
            DrawCmd::FillRect { x: 50, y: 440, w: 500, h: 120 },
            DrawCmd::StrokeThickness { px: 2 },
            DrawCmd::StrokeColor { color: Color(0x000000ff) },
            DrawCmd::StrokeRect { x: 50, y: 440, w: 500, h: 120 },
            DrawCmd::Font { px: 80 },
            DrawCmd::FillColor { color: Color(0x000000ff) },
            DrawCmd::Text { message: Message::Drawn, x: 60, y: 520, max_width: 480 },
        ]
    );
}

#[test]
fn winner_line_connects_the_endpoint_cell_centers() {
    let cmds = draw_winner_line(CellState::X, 0, 8, VP);
    assert_eq!(
        cmds,
        vec![
            DrawCmd::StrokeColor { color: Color(0x000000ff) },
            DrawCmd::StrokeThickness { px: 10 },
            DrawCmd::Line { x1: 100, y1: 300, x2: 500, y2: 700 },
        ]
    );
}

#[test]
fn cell_marks_draw_stored_crosses_and_rings() {
    let mut g = GameState::new();
    g.place(CellState::X, 0);
    g.place(CellState::O, 4);
    let cmds = draw_cell_marks(&g, VP);
    assert_eq!(
        cmds,
        vec![
            DrawCmd::StrokeColor { color: Color(0x000000ff) },
            DrawCmd::Line { x1: 10, y1: 210, x2: 190, y2: 390 },
            DrawCmd::Line { x1: 190, y1: 210, x2: 10, y2: 390 },
            DrawCmd::StrokeColor { color: Color(0xff0000ff) },
            DrawCmd::Circle { x: 300, y: 500, r: 90 },
        ]
    );
}

#[test]
fn empty_board_frame_has_indicator_grid_and_no_overlay() {
    let mut st = AppState::new();
    st.set_size(600, 800);
    let cmds = draw_frame(&st, false);
    assert_eq!(cmds.len(), 11);
    assert_eq!(cmds[0], DrawCmd::StrokeThickness { px: 10 });
    assert_eq!(cmds[4], DrawCmd::StrokeThickness { px: 3 });
    assert_eq!(cmds[5], DrawCmd::StrokeColor { color: Color(0x00000040) });
    assert_eq!(cmds[10], DrawCmd::StrokeThickness { px: 10 });
}

#[test]
fn won_frame_overlays_line_and_dialog() {
    let mut st = AppState::new();
    st.set_size(600, 800);
    st.game.place(CellState::X, 0);
    st.game.place(CellState::X, 4);
    st.game.place(CellState::X, 8);
    let cmds = draw_frame(&st, false);
    assert!(cmds.contains(&DrawCmd::Line { x1: 100, y1: 300, x2: 500, y2: 700 }));
    assert!(cmds.contains(&DrawCmd::Text {
        message: Message::XWon,
        x: 60,
        y: 520,
        max_width: 480
    }));
}

#[test]
fn debug_frame_marks_the_remembered_click() {
    let mut st = AppState::new();
    st.set_size(600, 800);
    st.handle_click(10, 210);
    let plain = draw_frame(&st, false);
    let debug = draw_frame(&st, true);
    assert_eq!(debug.len(), plain.len() + 2);
    assert_eq!(debug[debug.len() - 2], DrawCmd::StrokeColor { color: Color(0x00ff00ff) });
    assert_eq!(debug[debug.len() - 1], DrawCmd::Circle { x: 10, y: 210, r: 10 });
}
