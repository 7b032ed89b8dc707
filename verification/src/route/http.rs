//! Decisions behind the HTTP routes.
use vstd::prelude::*;

use crate::interfaces::{CheatessError, FuncWrapper, StockfishLike, Summary};
use crate::route::{
    distinct_pieces, summary_of, to_stockfish_summaries, Coords, IntConfig, RawBoard,
    StockfishSummary,
};
use crate::wrappers::args::{
    CheatessArgsDto, EngineArgsDto, ImgProcArgsDto, MonitorArgsDto, StockfishArgsDto,
};
use crate::wrappers::enums::ColorDto;
use crate::wrappers::func::{
    engine_options, engine_to_configure, has_engine_options, ProdFunc, ENGINE_DEPTH,
};
use crate::route;

verus! {

pub const STATUS_OK: u16 = 200;

pub const STATUS_NOT_FOUND: u16 = 404;

pub const STATUS_INTERNAL_SERVER_ERROR: u16 = 500;

/// The board last seen, as `GET /board` answers it.
#[derive(Debug)]
pub struct RawBoardResponse {
    pub raw_data: RawBoard,
}

/// Engine version and analysed lines, as `POST /init` answers them.
#[derive(Debug)]
pub struct StockfishResponse {
    pub version: String,
    pub summary: Option<Vec<StockfishSummary>>,
}

/// `GET /board`: the board last seen, or nothing (not found) before a game
/// was set up.
pub fn get_prev_board<Image>(int_config: &IntConfig<Image>) -> (r: Option<RawBoardResponse>)
    ensures
        match int_config.prev_board {
            Some(b) => r matches Some(resp) && resp.raw_data == b,
            None => r is None,
        },
{
    match int_config.prev_board {
        Some(raw_data) => Some(RawBoardResponse { raw_data }),
        None => None,
    }
}

/// The status and body engine set-up answers with: the engine's version on
/// success; on failure an empty version and an internal-error status.
pub fn stockfish_status(result: Result<route::StockfishResponse, CheatessError>) -> (r: (
    u16,
    StockfishResponse,
))
    ensures
        match result {
            Ok(resp) => r.0 == STATUS_OK && r.1.version == resp.version && r.1.summary
                == resp.summary,
            Err(_) => r.0 == STATUS_INTERNAL_SERVER_ERROR && r.1.version@ == Seq::<char>::empty()
                && r.1.summary is None,
        },
{
    match result {
        Ok(resp) => (STATUS_OK, StockfishResponse { version: resp.version, summary: resp.summary }),
        Err(_) => (STATUS_INTERNAL_SERVER_ERROR, StockfishResponse { version: String::new(), summary: None }),
    }
}

/// Engine set-up for `POST /init`: as [`ProdFunc::init_stockfish`], answered
/// with a status instead of an error: success exactly when the engine accepts
/// the options, an internal error with an empty version when it refuses them.
pub fn init_stockfish<F: FuncWrapper, Threshold>(
    funcs: &F,
    engine_path: Option<&str>,
    stockfish: &mut Option<F::Engine>,
    ext_config: &CheatessArgsDto<Threshold>,
) -> (r: (u16, StockfishResponse))
    requires
        *old(stockfish) is None ==> (engine_path matches Some(p) && funcs.creates_stockfish(
            p@,
            ENGINE_DEPTH,
        )),
        ext_config.stockfish matches Some(args) && has_engine_options(args),
    ensures
        exists|engine: F::Engine|
            #[trigger] engine_to_configure(*funcs, engine_path, *old(stockfish), engine) && {
                let options = engine_options(ext_config.stockfish.unwrap());
                &&& *final(stockfish) == Some(engine.configured(options))
                &&& r.0 == STATUS_OK <==> engine.accepts(options)
                &&& r.0 == STATUS_OK ==> r.1.version@ == engine.version()
            },
        *final(stockfish) is Some,
        *old(stockfish) matches Some(before) ==> final(stockfish).unwrap().version()
            == before.version(),
        r.0 == STATUS_OK || r.0 == STATUS_INTERNAL_SERVER_ERROR,
        r.1.summary is None,
        r.0 == STATUS_OK ==> {
            &&& r.1.version@ == final(stockfish).unwrap().version()
            &&& final(stockfish).unwrap().applied_options() == Some(
                engine_options(ext_config.stockfish.unwrap()),
            )
        },
        r.0 == STATUS_INTERNAL_SERVER_ERROR ==> r.1.version@ == Seq::<char>::empty(),
{
    let result = ProdFunc.init_stockfish(funcs, engine_path, stockfish, ext_config);
    stockfish_status(result)
}

/// Merges the image-processing patch `patch` into `current`.
fn merge_proc_image<Threshold>(
    current: &mut ImgProcArgsDto<Threshold>,
    patch: ImgProcArgsDto<Threshold>,
)
    ensures
        *final(current) == old(current).merged(patch),
{
    if let Some(margin) = patch.margin {
        current.margin = Some(margin);
    }
    if let Some(piece_threshold) = patch.piece_threshold {
        current.piece_threshold = Some(piece_threshold);
    }
    if let Some(extract_piece_threshold) = patch.extract_piece_threshold {
        current.extract_piece_threshold = Some(extract_piece_threshold);
    }
    if let Some(board_threshold) = patch.board_threshold {
        current.board_threshold = Some(board_threshold);
    }
    if let Some(difference_level) = patch.difference_level {
        current.difference_level = Some(difference_level);
    }
}

/// Merges the engine-option patch `patch` into `current`; the number of
/// reported lines (`pv`) is left as it is.
fn merge_stockfish(current: &mut StockfishArgsDto, patch: StockfishArgsDto)
    ensures
        *final(current) == old(current).merged(patch),
{
    if let Some(path) = patch.path {
        current.path = Some(path);
    }
    if let Some(elo) = patch.elo {
        current.elo = Some(elo);
    }
    if let Some(skill) = patch.skill {
        current.skill = Some(skill);
    }
    if let Some(depth) = patch.depth {
        current.depth = Some(depth);
    }
    if let Some(hash) = patch.hash {
        current.hash = Some(hash);
    }
}

/// Applies the partial configuration `partial` to `ext_config` (the body of
/// `PATCH /ext_config`): every value that `partial` carries replaces the
/// current one, a missing section is created empty before it is patched, the
/// monitor section changes only when `partial` names a monitor, and the
/// engine's line count is never patched.
pub fn update_ext_config<Threshold>(
    ext_config: &mut CheatessArgsDto<Threshold>,
    partial: CheatessArgsDto<Threshold>,
)
    ensures
        *final(ext_config) == old(ext_config).merged(partial),
{
    let CheatessArgsDto { verbose, mode, monitor, stockfish, proc_image, engine } = partial;
    if let Some(verbose) = verbose {
        ext_config.verbose = Some(verbose);
    }
    if let Some(mode) = mode {
        ext_config.mode = Some(mode);
    }
    if let Some(monitor) = monitor {
        if let Some(name) = monitor.name {
            ext_config.monitor = Some(MonitorArgsDto { name: Some(name) });
        }
    }
    if let Some(patch) = stockfish {
        let mut section = match ext_config.stockfish.take() {
            Some(s) => s,
            None => StockfishArgsDto::default(),
        };
        merge_stockfish(&mut section, patch);
        ext_config.stockfish = Some(section);
    }
    if let Some(patch) = proc_image {
        let mut section = match ext_config.proc_image.take() {
            Some(p) => p,
            None => ImgProcArgsDto::default(),
        };
        merge_proc_image(&mut section, patch);
        ext_config.proc_image = Some(section);
    }
    if let Some(patch) = engine {
        let mut section = match ext_config.engine.take() {
            Some(e) => e,
            None => EngineArgsDto::default(),
        };
        if let Some(pretty) = patch.pretty {
            section.pretty = Some(pretty);
        }
        ext_config.engine = Some(section);
    }
}

} // verus!

verus! {

/// Where `POST /init` stands, with what it has learned so far.
#[derive(Debug)]
pub enum InitStage {
    CapturingScreen,
    FindingBoard,
    StartingEngine { coords: Coords },
    CroppingBoard { coords: Coords, version: String },
    DetectingColor { coords: Coords, version: String },
    ExtractingPieces { color: ColorDto, version: String },
    Analysing { version: String },
    Finished,
}

/// The `POST /init` set-up: capture the screen, find the board on it, start
/// the engine, crop the board, detect the user's colour, extract the piece
/// templates and analyse the position, stopping at the first failure.
#[derive(Debug)]
pub struct InitFlow<Threshold> {
    pub stage: InitStage,
    /// Margin and threshold for extracting the piece templates.
    pub margin: Option<u8>,
    pub extract_piece_threshold: Option<Threshold>,
    /// Number of lines to analyse.
    pub pv: usize,
}

/// What the caller reports after carrying out an [`InitAction`]; a failure
/// carries the error's text.
#[derive(Debug)]
pub enum InitEvent<Image> {
    ScreenCaptured(Result<(), String>),
    CoordsFound(Result<Coords, String>),
    /// The status and body of engine set-up ([`init_stockfish`]).
    StockfishStarted(u16, StockfishResponse),
    BoardCropped(Result<(), String>),
    /// The colour and the initial board seen from that side.
    ColorDetected(Result<(ColorDto, RawBoard), String>),
    /// The piece templates, one per piece, and the cropped board image.
    PiecesExtracted(Result<(Vec<(char, Image)>, Image), String>),
    SummaryReady(Result<Vec<Summary>, String>),
}

/// The body of the answer to `POST /init`.
#[derive(Debug)]
pub enum InitReply {
    /// `{"error": message}`.
    Failed(String),
    /// The engine's version and analysis; the caller adds the set-up state.
    Ready(StockfishResponse),
}

/// What the caller is to do next.
#[derive(Debug)]
pub enum InitAction<Threshold> {
    CaptureScreen { monitor_name: Option<String> },
    /// Locate the board on the captured screen.
    GetCoords,
    /// Run [`init_stockfish`].
    InitStockfish,
    CropBoard { coords: Coords },
    /// Detect the user's colour on the cropped board.
    DetectColor,
    GetPieces { margin: u8, threshold: Threshold, color: ColorDto },
    GetSummary { pv: usize },
    Respond { status: u16, reply: InitReply },
}

/// How far the set-up has got; each step moves it further, so `POST /init`
/// answers after at most eight steps.
pub open spec fn progress(stage: InitStage) -> nat {
    match stage {
        InitStage::CapturingScreen => 1,
        InitStage::FindingBoard => 2,
        InitStage::StartingEngine { .. } => 3,
        InitStage::CroppingBoard { .. } => 4,
        InitStage::DetectingColor { .. } => 5,
        InitStage::ExtractingPieces { .. } => 6,
        InitStage::Analysing { .. } => 7,
        InitStage::Finished => 8,
    }
}

/// `action` answers with an internal error whose message is `message`.
pub open spec fn fails_with<Threshold>(action: InitAction<Threshold>, message: Seq<char>) -> bool {
    action matches InitAction::Respond { status, reply: InitReply::Failed(m) } && status
        == STATUS_INTERNAL_SERVER_ERROR && m@ == message
}

fn failure<Threshold>(prefix: &str, error: String) -> (r: InitAction<Threshold>)
    ensures
        fails_with(r, prefix@ + error@),
{
    let mut message = String::from_str(prefix);
    message.append(error.as_str());
    InitAction::Respond { status: STATUS_INTERNAL_SERVER_ERROR, reply: InitReply::Failed(message) }
}

fn finished<Threshold>(margin: Option<u8>, threshold: Option<Threshold>, pv: usize) -> (r: InitFlow<Threshold>)
    ensures
        r.stage is Finished,
        r.margin == margin,
        r.extract_piece_threshold == threshold,
        r.pv == pv,
{
    InitFlow { stage: InitStage::Finished, margin, extract_piece_threshold: threshold, pv }
}

/// Whether `flow` expects `event` now; extracting templates needs a margin
/// and a threshold, and yields one template per piece.
pub open spec fn expects<Threshold, Image>(flow: InitFlow<Threshold>, event: InitEvent<Image>) -> bool {
    match event {
        InitEvent::ScreenCaptured(_) => flow.stage is CapturingScreen,
        InitEvent::CoordsFound(_) => flow.stage is FindingBoard,
        InitEvent::StockfishStarted(..) => flow.stage is StartingEngine,
        InitEvent::BoardCropped(_) => flow.stage is CroppingBoard,
        InitEvent::ColorDetected(res) => flow.stage is DetectingColor && (res is Ok ==> (
        flow.margin is Some && flow.extract_piece_threshold is Some)),
        InitEvent::PiecesExtracted(res) => flow.stage is ExtractingPieces && (res matches Ok(
            (pieces, _),
        ) ==> distinct_pieces(pieces@)),
        InitEvent::SummaryReady(_) => flow.stage is Analysing,
    }
}

/// `after` is `before` with a new stage.
pub open spec fn same_settings<Threshold>(before: InitFlow<Threshold>, after: InitFlow<Threshold>) -> bool {
    &&& after.margin == before.margin
    &&& after.extract_piece_threshold == before.extract_piece_threshold
    &&& after.pv == before.pv
}

/// `after` equals `before`.
pub open spec fn unchanged<Image>(before: IntConfig<Image>, after: IntConfig<Image>) -> bool {
    &&& after.coords == before.coords
    &&& after.prev_board == before.prev_board
    &&& after.color == before.color
    &&& after.prev_board_mat == before.prev_board_mat
    &&& after.pieces == before.pieces
}

impl<Threshold: Copy> InitFlow<Threshold> {
    /// Begins `POST /init` from the current configuration. A missing monitor,
    /// image-processing or engine section is answered with an internal
    /// error naming it; otherwise the screen of the configured monitor is
    /// captured first.
    pub fn start(ext_config: &CheatessArgsDto<Threshold>) -> (r: (InitFlow<Threshold>, InitAction<
        Threshold,
    >))
        requires
            ext_config.monitor is Some && ext_config.proc_image is Some
                && ext_config.stockfish is Some ==> ext_config.stockfish.unwrap().pv is Some,
        ensures
            r.1 is Respond <==> r.0.stage is Finished,
            ext_config.monitor is None ==> r.0.stage is Finished && fails_with(
                r.1,
                "MonitorArgsDto is None"@,
            ),
            ext_config.monitor is Some && ext_config.proc_image is None ==> r.0.stage is Finished
                && fails_with(r.1, "ImgProcArgsDto is None"@),
            ext_config.monitor is Some && ext_config.proc_image is Some && ext_config.stockfish is None
                ==> r.0.stage is Finished && fails_with(r.1, "Stockfish is None"@),
            ext_config.monitor is Some && ext_config.proc_image is Some && ext_config.stockfish is Some
                ==> {
                &&& r.0.stage is CapturingScreen
                &&& r.0.margin == ext_config.proc_image.unwrap().margin
                &&& r.0.extract_piece_threshold
                    == ext_config.proc_image.unwrap().extract_piece_threshold
                &&& r.0.pv == ext_config.stockfish.unwrap().pv.unwrap()
                &&& r.1 matches InitAction::CaptureScreen { monitor_name }
                &&& monitor_name == ext_config.monitor.unwrap().name
            },
    {
        let failed = match (&ext_config.monitor, &ext_config.proc_image, &ext_config.stockfish) {
            (None, _, _) => Some("MonitorArgsDto is None"),
            (Some(_), None, _) => Some("ImgProcArgsDto is None"),
            (Some(_), Some(_), None) => Some("Stockfish is None"),
            _ => None,
        };
        match failed {
            Some(message) => {
                let action = InitAction::Respond {
                    status: STATUS_INTERNAL_SERVER_ERROR,
                    reply: InitReply::Failed(String::from_str(message)),
                };
                (finished(None, None, 0), action)
            },
            None => {
                let monitor = ext_config.monitor.as_ref().unwrap();
                let proc_image = ext_config.proc_image.as_ref().unwrap();
                let stockfish = ext_config.stockfish.as_ref().unwrap();
                let monitor_name = match &monitor.name {
                    Some(name) => Some(name.clone()),
                    None => None,
                };
                let flow = InitFlow {
                    stage: InitStage::CapturingScreen,
                    margin: proc_image.margin,
                    extract_piece_threshold: proc_image.extract_piece_threshold,
                    pv: stockfish.pv.unwrap(),
                };
                (flow, InitAction::CaptureScreen { monitor_name })
            },
        }
    }

    /// Advances the set-up with the outcome of the last action. A failed
    /// step is answered with an internal error `"<what failed>: <error>"` and
    /// ends the set-up. Once the colour is known, the board position and the
    /// initial board are recorded in `int_config`; once the piece templates
    /// are extracted, they, the board image and the colour are recorded too.
    /// The analysis ends the set-up with the engine's version and lines.
    pub fn step<Image>(self, event: InitEvent<Image>, int_config: &mut IntConfig<Image>) -> (r: (
        InitFlow<Threshold>,
        InitAction<Threshold>,
    ))
        requires
            expects(self, event),
            old(int_config).well_formed(),
        ensures
            final(int_config).well_formed(),
            same_settings(self, r.0),
            progress(r.0.stage) > progress(self.stage),
            r.1 is Respond <==> r.0.stage is Finished,
            match event {
                InitEvent::ColorDetected(Ok(_)) => true,
                InitEvent::PiecesExtracted(Ok(_)) => true,
                _ => unchanged(*old(int_config), *final(int_config)),
            },
            match event {
                InitEvent::ScreenCaptured(Ok(())) => r.0.stage is FindingBoard && r.1
                    is GetCoords,
                InitEvent::ScreenCaptured(Err(e)) => r.0.stage is Finished && fails_with(
                    r.1,
                    "Failed to capture screen: "@ + e@,
                ),
                InitEvent::CoordsFound(Ok(c)) => r.0.stage == (InitStage::StartingEngine {
                    coords: c,
                }) && r.1 is InitStockfish,
                InitEvent::CoordsFound(Err(e)) => r.0.stage is Finished && fails_with(
                    r.1,
                    "Failed to get board coordinates: "@ + e@,
                ),
                InitEvent::StockfishStarted(status, resp) => if status == STATUS_OK {
                    &&& self.stage matches InitStage::StartingEngine { coords }
                    &&& r.0.stage == (InitStage::CroppingBoard { coords, version: resp.version })
                    &&& r.1 == (InitAction::<Threshold>::CropBoard { coords })
                } else {
                    r.0.stage is Finished && fails_with(r.1, "Init stockfish failed"@)
                },
                InitEvent::BoardCropped(Ok(())) => {
                    &&& self.stage matches InitStage::CroppingBoard { coords, version }
                    &&& r.0.stage == (InitStage::DetectingColor { coords, version })
                    &&& r.1 is DetectColor
                },
                InitEvent::BoardCropped(Err(e)) => r.0.stage is Finished && fails_with(
                    r.1,
                    "Failed to crop board: "@ + e@,
                ),
                InitEvent::ColorDetected(Ok((color, board))) => {
                    &&& self.stage matches InitStage::DetectingColor { coords, version }
                    &&& r.0.stage == (InitStage::ExtractingPieces { color, version })
                    &&& r.1 == (InitAction::GetPieces {
                        margin: self.margin.unwrap(),
                        threshold: self.extract_piece_threshold.unwrap(),
                        color,
                    })
                    &&& final(int_config).coords == Some(coords)
                    &&& final(int_config).prev_board == Some(board)
                    &&& final(int_config).color == old(int_config).color
                    &&& final(int_config).prev_board_mat == old(int_config).prev_board_mat
                    &&& final(int_config).pieces == old(int_config).pieces
                },
                InitEvent::ColorDetected(Err(e)) => r.0.stage is Finished && fails_with(
                    r.1,
                    "Failed to detect player color: "@ + e@,
                ),
                InitEvent::PiecesExtracted(Ok((pieces, board))) => {
                    &&& self.stage matches InitStage::ExtractingPieces { color, version }
                    &&& r.0.stage == (InitStage::Analysing { version })
                    &&& r.1 == (InitAction::<Threshold>::GetSummary { pv: self.pv })
                    &&& final(int_config).pieces == Some(pieces)
                    &&& final(int_config).prev_board_mat == Some(board)
                    &&& final(int_config).color == Some(color)
                    &&& final(int_config).coords == old(int_config).coords
                    &&& final(int_config).prev_board == old(int_config).prev_board
                },
                InitEvent::PiecesExtracted(Err(e)) => r.0.stage is Finished && fails_with(
                    r.1,
                    "Failed to extract pieces: "@ + e@,
                ),
                InitEvent::SummaryReady(Ok(lines)) => {
                    &&& self.stage matches InitStage::Analysing { version }
                    &&& r.0.stage is Finished
                    &&& r.1 matches InitAction::Respond { status, reply: InitReply::Ready(resp) }
                    &&& status == STATUS_OK
                    &&& resp.version == version
                    &&& resp.summary matches Some(s)
                    &&& s@ == lines@.map_values(|l: Summary| summary_of(l))
                },
                InitEvent::SummaryReady(Err(e)) => r.0.stage is Finished && fails_with(
                    r.1,
                    "Failed to get stockfish summary: "@ + e@,
                ),
            },
    {
        let InitFlow { stage, margin, extract_piece_threshold, pv } = self;
        match (stage, event) {
            (InitStage::CapturingScreen, InitEvent::ScreenCaptured(res)) => match res {
                Ok(()) => (
                    InitFlow { stage: InitStage::FindingBoard, margin, extract_piece_threshold, pv },
                    InitAction::GetCoords,
                ),
                Err(e) => (
                    finished(margin, extract_piece_threshold, pv),
                    failure("Failed to capture screen: ", e),
                ),
            },
            (InitStage::FindingBoard, InitEvent::CoordsFound(res)) => match res {
                Ok(coords) => (
                    InitFlow {
                        stage: InitStage::StartingEngine { coords },
                        margin,
                        extract_piece_threshold,
                        pv,
                    },
                    InitAction::InitStockfish,
                ),
                Err(e) => (
                    finished(margin, extract_piece_threshold, pv),
                    failure("Failed to get board coordinates: ", e),
                ),
            },
            (InitStage::StartingEngine { coords }, InitEvent::StockfishStarted(status, resp)) => {
                if status == STATUS_OK {
                    (
                        InitFlow {
                            stage: InitStage::CroppingBoard { coords, version: resp.version },
                            margin,
                            extract_piece_threshold,
                            pv,
                        },
                        InitAction::CropBoard { coords },
                    )
                } else {
                    let action = InitAction::Respond {
                        status: STATUS_INTERNAL_SERVER_ERROR,
                        reply: InitReply::Failed(String::from_str("Init stockfish failed")),
                    };
                    (finished(margin, extract_piece_threshold, pv), action)
                }
            },
            (InitStage::CroppingBoard { coords, version }, InitEvent::BoardCropped(res)) => match res {
                Ok(()) => (
                    InitFlow {
                        stage: InitStage::DetectingColor { coords, version },
                        margin,
                        extract_piece_threshold,
                        pv,
                    },
                    InitAction::DetectColor,
                ),
                Err(e) => (
                    finished(margin, extract_piece_threshold, pv),
                    failure("Failed to crop board: ", e),
                ),
            },
            (InitStage::DetectingColor { coords, version }, InitEvent::ColorDetected(res)) => match res {
                Ok((color, board)) => {
                    int_config.coords = Some(coords);
                    int_config.prev_board = Some(board);
                    let action = InitAction::GetPieces {
                        margin: margin.unwrap(),
                        threshold: extract_piece_threshold.unwrap(),
                        color,
                    };
                    (
                        InitFlow {
                            stage: InitStage::ExtractingPieces { color, version },
                            margin,
                            extract_piece_threshold,
                            pv,
                        },
                        action,
                    )
                },
                Err(e) => (
                    finished(margin, extract_piece_threshold, pv),
                    failure("Failed to detect player color: ", e),
                ),
            },
            (InitStage::ExtractingPieces { color, version }, InitEvent::PiecesExtracted(res)) => match res {
                Ok((pieces, board)) => {
                    int_config.pieces = Some(pieces);
                    int_config.prev_board_mat = Some(board);
                    int_config.color = Some(color);
                    (
                        InitFlow {
                            stage: InitStage::Analysing { version },
                            margin,
                            extract_piece_threshold,
                            pv,
                        },
                        InitAction::GetSummary { pv },
                    )
                },
                Err(e) => (
                    finished(margin, extract_piece_threshold, pv),
                    failure("Failed to extract pieces: ", e),
                ),
            },
            (InitStage::Analysing { version }, InitEvent::SummaryReady(res)) => match res {
                Ok(lines) => {
                    let summary = to_stockfish_summaries(lines);
                    let action = InitAction::Respond {
                        status: STATUS_OK,
                        reply: InitReply::Ready(StockfishResponse { version, summary: Some(summary) }),
                    };
                    (finished(margin, extract_piece_threshold, pv), action)
                },
                Err(e) => (
                    finished(margin, extract_piece_threshold, pv),
                    failure("Failed to get stockfish summary: ", e),
                ),
            },
            _ => {
                assert(false);
                (finished(margin, extract_piece_threshold, pv), InitAction::GetCoords)
            },
        }
    }
}

} // verus!
