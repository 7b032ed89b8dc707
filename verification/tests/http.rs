use cheatess_backend::interfaces::{CheatessError, Summary};
use cheatess_backend::mocks::func::MockFunc;
use cheatess_backend::mocks::stockfish::MockStockfish;
use cheatess_backend::route::http::{
    get_prev_board, init_stockfish, InitAction, InitEvent, InitFlow, InitReply, InitStage,
    STATUS_INTERNAL_SERVER_ERROR, STATUS_OK,
};
use cheatess_backend::route::{IntConfig, RawBoard};
use cheatess_backend::wrappers::args::{
    CheatessArgsDto, ImgProcArgsDto, MonitorArgsDto, StockfishArgsDto,
};
use cheatess_backend::wrappers::enums::ColorDto;

type Mat = Vec<u8>;
type Funcs = MockFunc<Mat, String>;

fn white_start_board() -> RawBoard {
    [
        ['r', 'n', 'b', 'q', 'k', 'b', 'n', 'r'],
        ['p', 'p', 'p', 'p', 'p', 'p', 'p', 'p'],
        [' ', ' ', ' ', ' ', ' ', ' ', ' ', ' '],
        [' ', ' ', ' ', ' ', ' ', ' ', ' ', ' '],
        [' ', ' ', ' ', ' ', ' ', ' ', ' ', ' '],
        [' ', ' ', ' ', ' ', ' ', ' ', ' ', ' '],
        ['P', 'P', 'P', 'P', 'P', 'P', 'P', 'P'],
        ['R', 'N', 'B', 'Q', 'K', 'B', 'N', 'R'],
    ]
}

fn config_with(stockfish: StockfishArgsDto) -> CheatessArgsDto<f64> {
    CheatessArgsDto {
        monitor: Some(MonitorArgsDto { name: Some("abc".to_string()) }),
        stockfish: Some(stockfish),
        proc_image: Some(ImgProcArgsDto { ..Default::default() }),
        ..Default::default()
    }
}

/// What `POST /init` answers: status and either the error text or the
/// engine version with the analysed lines.
enum Answer {
    Error(u16, String),
    Ready(u16, String, usize),
}

/// Runs `POST /init` against the mock helpers, as the service does.
fn run_init(
    funcs: &Funcs,
    ext_config: &CheatessArgsDto<f64>,
    stockfish: &mut Option<MockStockfish>,
    int_config: &mut IntConfig<Mat>,
) -> Answer {
    let (mut flow, mut action) = InitFlow::start(ext_config);
    let mut screen: Option<Mat> = None;
    let mut board: Option<Mat> = None;
    loop {
        let event = match action {
            InitAction::CaptureScreen { monitor_name } => {
                match funcs.capture_screen_as_mat(monitor_name) {
                    Ok(m) => {
                        screen = Some(m);
                        InitEvent::ScreenCaptured(Ok(()))
                    }
                    Err(e) => InitEvent::ScreenCaptured(Err(e.message())),
                }
            }
            InitAction::GetCoords => {
                InitEvent::CoordsFound(funcs.get_coords(screen.as_ref().unwrap()).map_err(|e| e.message()))
            }
            InitAction::InitStockfish => {
                let (status, resp) = init_stockfish(funcs, Some("./engine_path"), stockfish, ext_config);
                InitEvent::StockfishStarted(status, resp)
            }
            InitAction::CropBoard { coords } => {
                match funcs.crop_board(screen.as_ref().unwrap(), coords) {
                    Ok(b) => {
                        board = Some(b);
                        InitEvent::BoardCropped(Ok(()))
                    }
                    Err(e) => InitEvent::BoardCropped(Err(e.message())),
                }
            }
            InitAction::DetectColor => InitEvent::ColorDetected(Ok((ColorDto::White, white_start_board()))),
            InitAction::GetPieces { margin, threshold, color } => {
                match funcs.get_pieces(board.as_ref().unwrap(), margin, threshold, &color) {
                    Ok(p) => InitEvent::PiecesExtracted(Ok((p, board.take().unwrap()))),
                    Err(e) => InitEvent::PiecesExtracted(Err(e.message())),
                }
            }
            InitAction::GetSummary { pv } => {
                let engine = stockfish.as_mut().unwrap();
                let _ = pv;
                InitEvent::SummaryReady(
                    cheatess_backend::interfaces::StockfishLike::get_summary(engine, pv)
                        .map_err(|e| e.message()),
                )
            }
            InitAction::Respond { status, reply } => {
                return match reply {
                    InitReply::Failed(m) => Answer::Error(status, m),
                    InitReply::Ready(r) => Answer::Ready(status, r.version, r.summary.unwrap().len()),
                };
            }
        };
        let (next, next_action) = flow.step(event, int_config);
        flow = next;
        action = next_action;
    }
}

#[test]
fn get_board_before_init() {
    let int_config: IntConfig<Mat> = IntConfig {
        prev_board: None,
        color: None,
        coords: None,
        prev_board_mat: None,
        pieces: None,
    };
    assert!(get_prev_board(&int_config).is_none());
}

#[test]
fn get_board_after_init() {
    let board = white_start_board();
    let int_config: IntConfig<Mat> = IntConfig {
        prev_board: Some(board),
        color: None,
        coords: None,
        prev_board_mat: None,
        pieces: None,
    };
    let response = get_prev_board(&int_config).unwrap();
    assert_eq!(response.raw_data, white_start_board());
    assert_eq!(response.raw_data[0], ['r', 'n', 'b', 'q', 'k', 'b', 'n', 'r']);
    assert_eq!(response.raw_data[7], ['R', 'N', 'B', 'Q', 'K', 'B', 'N', 'R']);
}

#[test]
fn init_failed_with_capture_screen() {
    let funcs: Funcs = MockFunc::passing();
    let ext_config = config_with(StockfishArgsDto { pv: Some(3), ..Default::default() });
    let mut stockfish = None;
    let mut int_config = IntConfig::default();
    match run_init(&funcs, &ext_config, &mut stockfish, &mut int_config) {
        Answer::Error(status, message) => {
            assert_eq!(status, STATUS_INTERNAL_SERVER_ERROR);
            assert_eq!(message, "Failed to capture screen: Monitor not found");
        }
        Answer::Ready(..) => panic!("init should fail"),
    }
}

#[test]
fn init_failed_with_get_coords() {
    let funcs: Funcs = MockFunc { mat: Some(vec![]), ..Default::default() };
    let ext_config = config_with(StockfishArgsDto { pv: Some(3), ..Default::default() });
    let mut stockfish = None;
    let mut int_config = IntConfig::default();
    match run_init(&funcs, &ext_config, &mut stockfish, &mut int_config) {
        Answer::Error(status, message) => {
            assert_eq!(status, STATUS_INTERNAL_SERVER_ERROR);
            assert_eq!(message, "Failed to get board coordinates: Monitor not found");
        }
        Answer::Ready(..) => panic!("init should fail"),
    }
}

#[test]
fn init_failed_with_crop_board() {
    let funcs: Funcs = MockFunc {
        mat: Some(vec![]),
        coords: Some((1, 1, 1, 1)),
        stockfish_ptr: Some(MockStockfish { version: "0.0".to_string(), summary: None, ..Default::default() }),
        ..Default::default()
    };
    let ext_config = config_with(StockfishArgsDto {
        pv: Some(3),
        elo: Some(10),
        skill: Some(5),
        hash: Some(1),
        ..Default::default()
    });
    let mut stockfish = None;
    let mut int_config = IntConfig::default();
    match run_init(&funcs, &ext_config, &mut stockfish, &mut int_config) {
        Answer::Error(status, message) => {
            assert_eq!(status, STATUS_INTERNAL_SERVER_ERROR);
            assert_eq!(message, "Failed to crop board: Monitor not found");
        }
        Answer::Ready(..) => panic!("init should fail"),
    }
    assert!(stockfish.is_some());
}

#[test]
fn init_reports_missing_sections() {
    let mut ext_config: CheatessArgsDto<f64> = Default::default();
    let (flow, action) = InitFlow::start(&ext_config);
    assert!(matches!(flow.stage, InitStage::Finished));
    assert!(matches!(action, InitAction::Respond { status: 500, reply: InitReply::Failed(ref m) } if m == "MonitorArgsDto is None"));

    ext_config.monitor = Some(MonitorArgsDto { name: None });
    let (_, action) = InitFlow::start(&ext_config);
    assert!(matches!(action, InitAction::Respond { status: 500, reply: InitReply::Failed(ref m) } if m == "ImgProcArgsDto is None"));

    ext_config.proc_image = Some(Default::default());
    let (_, action) = InitFlow::start(&ext_config);
    assert!(matches!(action, InitAction::Respond { status: 500, reply: InitReply::Failed(ref m) } if m == "Stockfish is None"));

    ext_config.stockfish = Some(StockfishArgsDto { pv: Some(2), ..Default::default() });
    let (flow, action) = InitFlow::start(&ext_config);
    assert!(matches!(flow.stage, InitStage::CapturingScreen));
    assert_eq!(flow.pv, 2);
    assert!(matches!(action, InitAction::CaptureScreen { monitor_name: None }));
}

#[test]
fn init_succeeds_with_all_helpers() {
    let line = Summary { main_line: vec!["e2e4".to_string(), "e7e5".to_string()], eval: "0.3".to_string() };
    let funcs: Funcs = MockFunc {
        mat: Some(vec![1]),
        crop_mat: Some(vec![2]),
        map: Some(vec![('K', vec![3])]),
        coords: Some((4, 5, 6, 7)),
        stockfish_ptr: Some(MockStockfish::default()),
        ..MockFunc::passing()
    };
    let mut ext_config = config_with(StockfishArgsDto {
        pv: Some(1),
        elo: Some(1500),
        skill: Some(20),
        hash: Some(16),
        ..Default::default()
    });
    ext_config.proc_image = Some(ImgProcArgsDto {
        margin: Some(2),
        extract_piece_threshold: Some(0.8),
        ..Default::default()
    });
    let mut engine = MockStockfish::with_mock_version();
    engine.summary = Some(vec![line]);
    let mut stockfish = Some(engine);
    let mut int_config = IntConfig::default();
    match run_init(&funcs, &ext_config, &mut stockfish, &mut int_config) {
        Answer::Ready(status, version, lines) => {
            assert_eq!(status, STATUS_OK);
            assert_eq!(version, "mock");
            assert_eq!(lines, 1);
        }
        Answer::Error(_, m) => panic!("init failed: {}", m),
    }
    assert_eq!(int_config.coords, Some((4, 5, 6, 7)));
    assert_eq!(int_config.prev_board, Some(white_start_board()));
    assert_eq!(int_config.color, Some(ColorDto::White));
    assert_eq!(int_config.prev_board_mat, Some(vec![2]));
    assert_eq!(int_config.pieces, Some(vec![('K', vec![3])]));
}

#[test]
fn init_fails_when_engine_has_no_analysis() {
    let funcs: Funcs = MockFunc {
        mat: Some(vec![1]),
        crop_mat: Some(vec![2]),
        map: Some(vec![]),
        coords: Some((0, 0, 8, 8)),
        ..MockFunc::passing()
    };
    let mut ext_config = config_with(StockfishArgsDto {
        pv: Some(1),
        elo: Some(1),
        skill: Some(1),
        hash: Some(1),
        ..Default::default()
    });
    ext_config.proc_image = Some(ImgProcArgsDto {
        margin: Some(0),
        extract_piece_threshold: Some(0.5),
        ..Default::default()
    });
    let mut stockfish = Some(MockStockfish::with_mock_version());
    let mut int_config = IntConfig::default();
    match run_init(&funcs, &ext_config, &mut stockfish, &mut int_config) {
        Answer::Error(status, message) => {
            assert_eq!(status, STATUS_INTERNAL_SERVER_ERROR);
            assert_eq!(message, "Failed to get stockfish summary: No move detected");
        }
        Answer::Ready(..) => panic!("init should fail"),
    }
}

#[test]
fn init_fails_when_engine_refuses_options() {
    let funcs: Funcs = MockFunc {
        mat: Some(vec![1]),
        coords: Some((0, 0, 8, 8)),
        ..MockFunc::passing()
    };
    let ext_config = config_with(StockfishArgsDto {
        pv: Some(1),
        elo: Some(1),
        skill: Some(1),
        hash: Some(1),
        ..Default::default()
    });
    let mut stockfish = Some(MockStockfish { set_config_failed: true, ..Default::default() });
    let mut int_config = IntConfig::default();
    match run_init(&funcs, &ext_config, &mut stockfish, &mut int_config) {
        Answer::Error(status, message) => {
            assert_eq!(status, STATUS_INTERNAL_SERVER_ERROR);
            assert_eq!(message, "Init stockfish failed");
        }
        Answer::Ready(..) => panic!("init should fail"),
    }
    assert_eq!(int_config.coords, None);
}

#[test]
fn http_init_stockfish_statuses() {
    let funcs: Funcs = MockFunc { stockfish_ptr: Some(MockStockfish::default()), ..Default::default() };
    let ext_config = config_with(StockfishArgsDto {
        pv: Some(3),
        elo: Some(10),
        skill: Some(5),
        hash: Some(1),
        ..Default::default()
    });
    let mut stockfish = None;
    let (status, resp) = init_stockfish(&funcs, Some("./engine_path"), &mut stockfish, &ext_config);
    assert_eq!(status, STATUS_OK);
    assert_eq!(resp.version, "");
    assert!(resp.summary.is_none());

    let mut failing = Some(MockStockfish { version: "9".to_string(), set_config_failed: true, ..Default::default() });
    let (status, resp) = init_stockfish(&funcs, None, &mut failing, &ext_config);
    assert_eq!(status, STATUS_INTERNAL_SERVER_ERROR);
    assert_eq!(resp.version, "");
    assert_eq!(failing.unwrap().version, "9");
    let _ = CheatessError::MonitorNotFound;
}
