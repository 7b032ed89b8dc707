//! Decisions of the game loop that follows the board on screen, plays the
//! detected moves on the engine and reports its analysis over the socket.
use vstd::prelude::*;

use crate::interfaces::Summary;
use crate::route::{summary_of, Coords, IntConfig, RawBoard, StockfishSummary};
use crate::wrappers::args::CheatessArgsDto;
use crate::wrappers::enums::ColorDto;

verus! {

/// A position report sent to the front end.
#[derive(Debug)]
pub struct CorrectMove {
    pub last_move: Option<String>,
    pub summary: Option<Vec<StockfishSummary>>,
    pub raw_board: RawBoard,
}

/// A message sent over the game socket.
#[derive(Debug)]
pub enum WsResponse {
    GameOver,
    NextMove(Box<CorrectMove>),
}

/// The number of leading lines that have moves; the first line without one
/// means the game is over.
pub open spec fn playable_prefix(lines: Seq<Summary>) -> nat
    decreases lines.len(),
{
    if lines.len() == 0 || lines[0].main_line@.len() == 0 {
        0
    } else {
        1 + playable_prefix(lines.drop_first())
    }
}

proof fn lemma_playable_prefix_bounds(lines: Seq<Summary>)
    ensures
        playable_prefix(lines) <= lines.len(),
        forall|i: int| 0 <= i < playable_prefix(lines) ==> #[trigger] lines[i].main_line@.len() > 0,
        playable_prefix(lines) < lines.len() ==> lines[playable_prefix(lines) as int].main_line@.len()
            == 0,
    decreases lines.len(),
{
    if lines.len() > 0 && lines[0].main_line@.len() > 0 {
        lemma_playable_prefix_bounds(lines.drop_first());
        assert forall|i: int| 0 <= i < playable_prefix(lines) implies #[trigger] lines[i].main_line@.len() > 0 by {
            if i > 0 {
                assert(lines[i] == lines.drop_first()[i - 1]);
            }
        }
    }
}

/// `messages` report the position `raw_board` reached by `last_move`, as
/// analysed in `lines`: `GameOver` first when some line has no moves, then
/// the position with the lines before that one.
pub open spec fn is_report(
    messages: Seq<WsResponse>,
    last_move: Option<String>,
    lines: Seq<Summary>,
    raw_board: RawBoard,
) -> bool {
    let k = playable_prefix(lines);
    &&& messages.len() == if k < lines.len() { 2nat } else { 1nat }
    &&& k < lines.len() ==> messages[0] is GameOver
    &&& messages.last() matches WsResponse::NextMove(m)
    &&& m.last_move == last_move
    &&& m.raw_board == raw_board
    &&& m.summary matches Some(s)
    &&& s@ == lines.take(k as int).map_values(|l: Summary| summary_of(l))
}

/// How a report reads, in terms of the analysed lines: when some line has no
/// moves, exactly two messages are sent, `GameOver` first; otherwise only the
/// position. The position is always last, carries the move and the board,
/// and lists, in order, the lines before the first line without moves (all
/// lines when there is none), each with its moves and evaluation.
pub proof fn lemma_report_reads(
    messages: Seq<WsResponse>,
    last_move: Option<String>,
    lines: Seq<Summary>,
    raw_board: RawBoard,
)
    requires
        is_report(messages, last_move, lines, raw_board),
    ensures
        (exists|i: int| 0 <= i < lines.len() && #[trigger] lines[i].main_line@.len() == 0) ==> {
            &&& messages.len() == 2
            &&& messages[0] is GameOver
        },
        (forall|i: int| 0 <= i < lines.len() ==> #[trigger] lines[i].main_line@.len() > 0)
            ==> messages.len() == 1,
        messages.last() matches WsResponse::NextMove(m) && {
            &&& m.last_move == last_move
            &&& m.raw_board == raw_board
            &&& m.summary matches Some(s) && {
                &&& s@.len() <= lines.len()
                &&& forall|j: int| 0 <= j < s@.len() ==> {
                    &&& #[trigger] s@[j].main_line == lines[j].main_line
                    &&& s@[j].evaluation == lines[j].eval
                    &&& lines[j].main_line@.len() > 0
                }
                &&& s@.len() < lines.len() ==> lines[s@.len() as int].main_line@.len() == 0
                &&& (forall|i: int| 0 <= i < lines.len() ==> #[trigger] lines[i].main_line@.len() > 0)
                    ==> s@.len() == lines.len()
            }
        },
{
    lemma_playable_prefix_bounds(lines);
    let k = playable_prefix(lines);
    if exists|i: int| 0 <= i < lines.len() && #[trigger] lines[i].main_line@.len() == 0 {
        let i = choose|i: int| 0 <= i < lines.len() && #[trigger] lines[i].main_line@.len() == 0;
        assert(k <= i);
    }
    if k < lines.len() {
        assert(lines[k as int].main_line@.len() == 0);
    }
}

/// The messages reporting a position: `GameOver` first when some line has no
/// moves, then the position with the lines before that one.
pub fn report_position(last_move: Option<String>, lines: Vec<Summary>, raw_board: RawBoard) -> (r: Vec<
    WsResponse,
>)
    ensures
        is_report(r@, last_move, lines@, raw_board),
        (exists|i: int| 0 <= i < lines@.len() && #[trigger] lines@[i].main_line@.len() == 0) ==> {
            &&& r@.len() == 2
            &&& r@[0] is GameOver
        },
{
    let ghost all = lines@;
    proof {
        lemma_playable_prefix_bounds(all);
    }
    let mut rest = lines;
    let mut shown: Vec<StockfishSummary> = Vec::new();
    let mut messages: Vec<WsResponse> = Vec::new();
    let mut over = false;
    while rest.len() > 0
        invariant_except_break
            !over,
            messages@.len() == 0,
            rest@ == all.skip(shown@.len() as int),
        invariant
            shown@.len() <= playable_prefix(all),
            shown@ == all.take(shown@.len() as int).map_values(|l: Summary| summary_of(l)),
            playable_prefix(all) <= all.len(),
            forall|i: int| 0 <= i < playable_prefix(all) ==> #[trigger] all[i].main_line@.len() > 0,
            playable_prefix(all) < all.len() ==> all[playable_prefix(all) as int].main_line@.len()
                == 0,
            over ==> shown@.len() == playable_prefix(all) && playable_prefix(all) < all.len()
                && messages@.len() == 1 && messages@[0] is GameOver,
        ensures
            over ==> shown@.len() == playable_prefix(all) && playable_prefix(all) < all.len()
                && messages@.len() == 1 && messages@[0] is GameOver,
            !over ==> shown@.len() == playable_prefix(all) && playable_prefix(all) == all.len()
                && messages@.len() == 0,
        decreases rest@.len(),
    {
        let ghost k = shown@.len() as int;
        let line = rest.remove(0);
        assert(line == all[k]);
        assert(all.skip(k + 1) =~= all.skip(k).drop_first());
        if line.main_line.len() == 0 {
            messages.push(WsResponse::GameOver);
            over = true;
            break;
        }
        shown.push(StockfishSummary { main_line: line.main_line, evaluation: line.eval });
        assert(all.take(k + 1).map_values(|l: Summary| summary_of(l)) =~= all.take(k).map_values(
            |l: Summary| summary_of(l),
        ).push(summary_of(all[k])));
    }
    proof {
        if exists|i: int| 0 <= i < all.len() && #[trigger] all[i].main_line@.len() == 0 {
            let i = choose|i: int| 0 <= i < all.len() && #[trigger] all[i].main_line@.len() == 0;
            assert(playable_prefix(all) <= i);
        }
    }
    messages.push(
        WsResponse::NextMove(
            Box::new(CorrectMove { last_move, summary: Some(shown), raw_board }),
        ),
    );
    messages
}


/// Where the current round of the game loop stands, with what it holds.
#[derive(Debug)]
pub enum GameStage<Image> {
    Capturing,
    Converting,
    Comparing { frame: Image },
    FindingPieces { frame: Image },
    DetectingMove { frame: Image, board: RawBoard },
    PlayingMove { frame: Image, board: RawBoard, mv: String },
    BuildingBoard { frame: Image, mv: String },
    Analysing { frame: Image, mv: String, current: RawBoard },
    Reporting,
}

/// The settings of the game loop.
#[derive(Debug)]
pub struct GameSettings<Threshold> {
    pub coords: Coords,
    pub color: ColorDto,
    pub pv: usize,
    pub piece_threshold: Threshold,
    pub board_threshold: Threshold,
    pub difference_level: i32,
}

/// The game loop. Each round captures the board area of the screen, turns it
/// into a grey image and compares it with the previous one; when it changed,
/// it reads the pieces, detects the move, plays it on the engine, builds the
/// new board, analyses it and reports it, then remembers the new board and
/// image. A failed step, or an unchanged image, starts the next round.
#[derive(Debug)]
pub struct GameLoop<Threshold, Image> {
    pub stage: GameStage<Image>,
    pub settings: GameSettings<Threshold>,
}

/// What the caller reports after carrying out a [`GameAction`].
#[derive(Debug)]
pub enum GameEvent<Image> {
    ScreenCaptured(Result<(), String>),
    /// The grey image of the captured area.
    Converted(Result<Image, String>),
    /// Whether the image differs from the previous one.
    Compared(Result<bool, String>),
    PiecesFound(Result<RawBoard, String>),
    MoveDetected(Result<String, String>),
    MovePlayed(Result<(), String>),
    BoardBuilt(RawBoard),
    Analysed(Result<Vec<Summary>, String>),
    Reported,
}

/// What the caller is to do next.
#[derive(Debug)]
pub enum GameAction<Threshold> {
    CaptureScreen { coords: Coords },
    ConvertToGray,
    /// Compare the previous board image with the current frame.
    CompareWithPrevious { difference_level: i32 },
    /// Read the pieces on the current frame with the piece templates.
    FindPieces { piece_threshold: Threshold, board_threshold: Threshold },
    DetectMove { previous: RawBoard, current: RawBoard, color: ColorDto },
    PlayMove { mv: String },
    BuildBoard { raw: RawBoard, color: ColorDto },
    Analyse { pv: usize },
    Report { messages: Vec<WsResponse> },
}

/// Whether `game` expects `event` now; every round needs the previous board
/// and its image.
pub open spec fn game_expects<Threshold, Image>(
    game: GameLoop<Threshold, Image>,
    event: GameEvent<Image>,
    int_config: IntConfig<Image>,
) -> bool {
    &&& int_config.prev_board is Some
    &&& int_config.prev_board_mat is Some
    &&& match event {
        GameEvent::ScreenCaptured(_) => game.stage is Capturing,
        GameEvent::Converted(_) => game.stage is Converting,
        GameEvent::Compared(_) => game.stage is Comparing,
        GameEvent::PiecesFound(_) => game.stage is FindingPieces,
        GameEvent::MoveDetected(_) => game.stage is DetectingMove,
        GameEvent::MovePlayed(_) => game.stage is PlayingMove,
        GameEvent::BoardBuilt(_) => game.stage is BuildingBoard,
        GameEvent::Analysed(_) => game.stage is Analysing,
        GameEvent::Reported => game.stage is Reporting,
    }
}

/// The next round starts: capture the board area again.
pub open spec fn restarts<Threshold, Image>(
    game: GameLoop<Threshold, Image>,
    next: (GameLoop<Threshold, Image>, GameAction<Threshold>),
) -> bool {
    next.0.stage is Capturing && next.1 == (GameAction::<Threshold>::CaptureScreen {
        coords: game.settings.coords,
    })
}

impl<Threshold: Copy, Image> GameLoop<Threshold, Image> {
    /// Begins the loop with the settings found by `POST /init` and the
    /// configuration; the first round captures the board area.
    pub fn new(ext_config: &CheatessArgsDto<Threshold>, int_config: &IntConfig<Image>) -> (r: (
        GameLoop<Threshold, Image>,
        GameAction<Threshold>,
    ))
        requires
            int_config.coords is Some,
            int_config.pieces is Some,
            int_config.color is Some,
            ext_config.stockfish matches Some(s) && s.pv is Some,
            ext_config.proc_image matches Some(p) && p.piece_threshold is Some
                && p.board_threshold is Some && p.difference_level is Some,
        ensures
            r.0.stage is Capturing,
            r.0.settings.coords == int_config.coords.unwrap(),
            r.0.settings.color == int_config.color.unwrap(),
            r.0.settings.pv == ext_config.stockfish.unwrap().pv.unwrap(),
            r.0.settings.piece_threshold == ext_config.proc_image.unwrap().piece_threshold.unwrap(),
            r.0.settings.board_threshold == ext_config.proc_image.unwrap().board_threshold.unwrap(),
            r.0.settings.difference_level == ext_config.proc_image.unwrap().difference_level.unwrap(),
            r.1 == (GameAction::<Threshold>::CaptureScreen { coords: r.0.settings.coords }),
    {
        let proc_image = ext_config.proc_image.as_ref().unwrap();
        let coords = int_config.coords.unwrap();
        let settings = GameSettings {
            coords,
            color: int_config.color.unwrap(),
            pv: ext_config.stockfish.as_ref().unwrap().pv.unwrap(),
            piece_threshold: proc_image.piece_threshold.unwrap(),
            board_threshold: proc_image.board_threshold.unwrap(),
            difference_level: proc_image.difference_level.unwrap(),
        };
        (GameLoop { stage: GameStage::Capturing, settings }, GameAction::CaptureScreen { coords })
    }

    /// The grey image of the current round, once there is one.
    pub fn current_frame(&self) -> (r: Option<&Image>)
        ensures
            match self.stage {
                GameStage::Comparing { frame } => r == Some(&frame),
                GameStage::FindingPieces { frame } => r == Some(&frame),
                GameStage::DetectingMove { frame, .. } => r == Some(&frame),
                GameStage::PlayingMove { frame, .. } => r == Some(&frame),
                GameStage::BuildingBoard { frame, .. } => r == Some(&frame),
                GameStage::Analysing { frame, .. } => r == Some(&frame),
                _ => r is None,
            },
    {
        match &self.stage {
            GameStage::Comparing { frame } => Some(frame),
            GameStage::FindingPieces { frame } => Some(frame),
            GameStage::DetectingMove { frame, .. } => Some(frame),
            GameStage::PlayingMove { frame, .. } => Some(frame),
            GameStage::BuildingBoard { frame, .. } => Some(frame),
            GameStage::Analysing { frame, .. } => Some(frame),
            _ => None,
        }
    }

    /// Advances the round with the outcome of the last action. Once the new
    /// position is analysed, the messages reporting it are to be sent and
    /// the new board and its image become the previous ones.
    pub fn step(self, event: GameEvent<Image>, int_config: &mut IntConfig<Image>) -> (r: (
        GameLoop<Threshold, Image>,
        GameAction<Threshold>,
    ))
        requires
            game_expects(self, event, *old(int_config)),
            old(int_config).well_formed(),
        ensures
            final(int_config).well_formed(),
            r.0.settings == self.settings,
            final(int_config).prev_board is Some,
            final(int_config).prev_board_mat is Some,
            final(int_config).coords == old(int_config).coords,
            final(int_config).color == old(int_config).color,
            final(int_config).pieces == old(int_config).pieces,
            !(event matches GameEvent::Analysed(Ok(_))) ==> *final(int_config) == *old(int_config),
            match event {
                GameEvent::ScreenCaptured(Ok(())) => r.0.stage is Converting && r.1 is ConvertToGray,
                GameEvent::Converted(Ok(frame)) => r.0.stage == (GameStage::Comparing { frame })
                    && r.1 == (GameAction::<Threshold>::CompareWithPrevious {
                    difference_level: self.settings.difference_level,
                }),
                GameEvent::Compared(Ok(true)) => {
                    &&& self.stage matches GameStage::Comparing { frame }
                    &&& r.0.stage == (GameStage::FindingPieces { frame })
                    &&& r.1 == (GameAction::<Threshold>::FindPieces {
                        piece_threshold: self.settings.piece_threshold,
                        board_threshold: self.settings.board_threshold,
                    })
                },
                GameEvent::PiecesFound(Ok(board)) => {
                    &&& self.stage matches GameStage::FindingPieces { frame }
                    &&& r.0.stage == (GameStage::DetectingMove { frame, board })
                    &&& r.1 == (GameAction::<Threshold>::DetectMove {
                        previous: old(int_config).prev_board.unwrap(),
                        current: board,
                        color: self.settings.color,
                    })
                },
                GameEvent::MoveDetected(Ok(mv)) => {
                    &&& self.stage matches GameStage::DetectingMove { frame, board }
                    &&& r.0.stage == (GameStage::PlayingMove { frame, board, mv })
                    &&& r.1 == (GameAction::<Threshold>::PlayMove { mv })
                },
                GameEvent::MovePlayed(Ok(())) => {
                    &&& self.stage matches GameStage::PlayingMove { frame, board, mv }
                    &&& r.0.stage == (GameStage::BuildingBoard { frame, mv })
                    &&& r.1 == (GameAction::<Threshold>::BuildBoard {
                        raw: board,
                        color: self.settings.color,
                    })
                },
                GameEvent::BoardBuilt(current) => {
                    &&& self.stage matches GameStage::BuildingBoard { frame, mv }
                    &&& r.0.stage == (GameStage::Analysing { frame, mv, current })
                    &&& r.1 == (GameAction::<Threshold>::Analyse { pv: self.settings.pv })
                },
                GameEvent::Analysed(Ok(lines)) => {
                    &&& self.stage matches GameStage::Analysing { frame, mv, current }
                    &&& r.0.stage is Reporting
                    &&& r.1 matches GameAction::Report { messages }
                    &&& is_report(messages@, Some(mv), lines@, current)
                    &&& final(int_config).prev_board == Some(current)
                    &&& final(int_config).prev_board_mat == Some(frame)
                },
                _ => restarts(self, r),
            },
    {
        let GameLoop { stage, settings } = self;
        let restart = GameAction::CaptureScreen { coords: settings.coords };
        let difference_level = settings.difference_level;
        let piece_threshold = settings.piece_threshold;
        let board_threshold = settings.board_threshold;
        let color = settings.color;
        let pv = settings.pv;
        match (stage, event) {
            (GameStage::Capturing, GameEvent::ScreenCaptured(res)) => match res {
                Ok(()) => (GameLoop { stage: GameStage::Converting, settings }, GameAction::ConvertToGray),
                Err(_) => (GameLoop { stage: GameStage::Capturing, settings }, restart),
            },
            (GameStage::Converting, GameEvent::Converted(res)) => match res {
                Ok(frame) => (
                    GameLoop { stage: GameStage::Comparing { frame }, settings },
                    GameAction::CompareWithPrevious { difference_level },
                ),
                Err(_) => (GameLoop { stage: GameStage::Capturing, settings }, restart),
            },
            (GameStage::Comparing { frame }, GameEvent::Compared(res)) => match res {
                Ok(true) => (
                    GameLoop { stage: GameStage::FindingPieces { frame }, settings },
                    GameAction::FindPieces { piece_threshold, board_threshold },
                ),
                _ => (GameLoop { stage: GameStage::Capturing, settings }, restart),
            },
            (GameStage::FindingPieces { frame }, GameEvent::PiecesFound(res)) => match res {
                Ok(board) => {
                    let previous = int_config.prev_board.unwrap();
                    (
                        GameLoop { stage: GameStage::DetectingMove { frame, board }, settings },
                        GameAction::DetectMove { previous, current: board, color },
                    )
                },
                Err(_) => (GameLoop { stage: GameStage::Capturing, settings }, restart),
            },
            (GameStage::DetectingMove { frame, board }, GameEvent::MoveDetected(res)) => match res {
                Ok(mv) => {
                    let played = mv.clone();
                    (
                        GameLoop { stage: GameStage::PlayingMove { frame, board, mv }, settings },
                        GameAction::PlayMove { mv: played },
                    )
                },
                Err(_) => (GameLoop { stage: GameStage::Capturing, settings }, restart),
            },
            (GameStage::PlayingMove { frame, board, mv }, GameEvent::MovePlayed(res)) => match res {
                Ok(()) => (
                    GameLoop { stage: GameStage::BuildingBoard { frame, mv }, settings },
                    GameAction::BuildBoard { raw: board, color },
                ),
                Err(_) => (GameLoop { stage: GameStage::Capturing, settings }, restart),
            },
            (GameStage::BuildingBoard { frame, mv }, GameEvent::BoardBuilt(current)) => (
                GameLoop { stage: GameStage::Analysing { frame, mv, current }, settings },
                GameAction::Analyse { pv },
            ),
            (GameStage::Analysing { frame, mv, current }, GameEvent::Analysed(res)) => match res {
                Ok(lines) => {
                    let messages = report_position(Some(mv), lines, current);
                    int_config.prev_board = Some(current);
                    int_config.prev_board_mat = Some(frame);
                    (GameLoop { stage: GameStage::Reporting, settings }, GameAction::Report { messages })
                },
                Err(_) => (GameLoop { stage: GameStage::Capturing, settings }, restart),
            },
            (GameStage::Reporting, GameEvent::Reported) => (
                GameLoop { stage: GameStage::Capturing, settings },
                restart,
            ),
            _ => {
                assert(false);
                (GameLoop { stage: GameStage::Capturing, settings }, restart)
            },
        }
    }
}

} // verus!
