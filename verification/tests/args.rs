use cheatess_backend::decimal::decimal_string;
use cheatess_backend::route::http::update_ext_config;
use cheatess_backend::wrappers::args::{
    CheatessArgsDto, EngineArgsDto, ImgProcArgsDto, MonitorArgsDto, StockfishArgsDto,
};

fn full_config() -> CheatessArgsDto<f64> {
    CheatessArgsDto {
        verbose: Some("Info".to_string()),
        mode: Some("auto".to_string()),
        monitor: Some(MonitorArgsDto { name: Some("main".to_string()) }),
        stockfish: Some(StockfishArgsDto {
            path: Some("/bin/stockfish".to_string()),
            elo: Some(1500),
            skill: Some(10),
            depth: Some(12),
            hash: Some(64),
            pv: Some(3),
        }),
        proc_image: Some(ImgProcArgsDto {
            margin: Some(4),
            piece_threshold: Some(0.7),
            extract_piece_threshold: Some(0.8),
            board_threshold: Some(0.9),
            difference_level: Some(5),
        }),
        engine: Some(EngineArgsDto { pretty: Some(false) }),
    }
}

fn summary(c: &CheatessArgsDto<f64>) -> String {
    format!(
        "{:?}|{:?}|{:?}|{:?}|{:?}|{:?}",
        c.verbose,
        c.mode,
        c.monitor.as_ref().map(|m| m.name.clone()),
        c.stockfish.as_ref().map(|s| (s.path.clone(), s.elo, s.skill, s.depth, s.hash, s.pv)),
        c.proc_image.as_ref().map(|p| (
            p.margin,
            p.piece_threshold,
            p.extract_piece_threshold,
            p.board_threshold,
            p.difference_level
        )),
        c.engine.as_ref().map(|e| e.pretty),
    )
}

#[test]
fn patch_replaces_given_values_only() {
    let mut config = full_config();
    let patch = CheatessArgsDto {
        mode: Some("manual".to_string()),
        stockfish: Some(StockfishArgsDto { elo: Some(2000), pv: Some(9), ..Default::default() }),
        proc_image: Some(ImgProcArgsDto { board_threshold: Some(0.5), ..Default::default() }),
        ..Default::default()
    };
    update_ext_config(&mut config, patch);
    assert_eq!(config.verbose.as_deref(), Some("Info"));
    assert_eq!(config.mode.as_deref(), Some("manual"));
    let s = config.stockfish.as_ref().unwrap();
    assert_eq!(s.elo, Some(2000));
    assert_eq!(s.skill, Some(10));
    assert_eq!(s.pv, Some(3));
    let p = config.proc_image.as_ref().unwrap();
    assert_eq!(p.board_threshold, Some(0.5));
    assert_eq!(p.piece_threshold, Some(0.7));
}

#[test]
fn patch_creates_missing_sections() {
    let mut config: CheatessArgsDto<f64> = Default::default();
    let patch = CheatessArgsDto {
        monitor: Some(MonitorArgsDto { name: None }),
        stockfish: Some(StockfishArgsDto { hash: Some(8), pv: Some(2), ..Default::default() }),
        engine: Some(EngineArgsDto { pretty: None }),
        ..Default::default()
    };
    update_ext_config(&mut config, patch);
    assert!(config.monitor.is_none());
    let s = config.stockfish.as_ref().unwrap();
    assert_eq!(s.hash, Some(8));
    assert_eq!(s.pv, None);
    assert_eq!(config.engine.as_ref().unwrap().pretty, None);
    assert!(config.proc_image.is_none());

    let patch = CheatessArgsDto {
        monitor: Some(MonitorArgsDto { name: Some("second".to_string()) }),
        engine: Some(EngineArgsDto { pretty: Some(true) }),
        ..Default::default()
    };
    update_ext_config(&mut config, patch);
    assert_eq!(config.monitor.as_ref().unwrap().name.as_deref(), Some("second"));
    assert_eq!(config.engine.as_ref().unwrap().pretty, Some(true));
}

#[test]
fn empty_patch_changes_nothing() {
    let mut config = full_config();
    let before = summary(&config);
    update_ext_config(&mut config, Default::default());
    assert_eq!(summary(&config), before);
}

#[test]
fn patch_twice_is_patch_once() {
    let patch = || CheatessArgsDto {
        verbose: Some("Debug".to_string()),
        proc_image: Some(ImgProcArgsDto { margin: Some(1), ..Default::default() }),
        ..Default::default()
    };
    let mut once = full_config();
    update_ext_config(&mut once, patch());
    let mut twice = full_config();
    update_ext_config(&mut twice, patch());
    update_ext_config(&mut twice, patch());
    assert_eq!(summary(&once), summary(&twice));
}

#[test]
fn patches_compose() {
    let first = || CheatessArgsDto {
        mode: Some("a".to_string()),
        stockfish: Some(StockfishArgsDto { elo: Some(1), depth: Some(2), ..Default::default() }),
        ..Default::default()
    };
    let second = || CheatessArgsDto {
        mode: Some("b".to_string()),
        stockfish: Some(StockfishArgsDto { depth: Some(7), ..Default::default() }),
        engine: Some(EngineArgsDto { pretty: Some(true) }),
        ..Default::default()
    };
    let mut stepwise: CheatessArgsDto<f64> = Default::default();
    update_ext_config(&mut stepwise, first());
    update_ext_config(&mut stepwise, second());

    let mut combined_patch = first();
    update_ext_config(&mut combined_patch, second());
    let mut at_once: CheatessArgsDto<f64> = Default::default();
    update_ext_config(&mut at_once, combined_patch);
    assert_eq!(summary(&stepwise), summary(&at_once));
    assert_eq!(stepwise.stockfish.as_ref().unwrap().depth, Some(7));
    assert_eq!(stepwise.stockfish.as_ref().unwrap().elo, Some(1));
}

#[test]
fn decimal_strings() {
    assert_eq!(decimal_string(0), "0");
    assert_eq!(decimal_string(7), "7");
    assert_eq!(decimal_string(10), "10");
    assert_eq!(decimal_string(1500), "1500");
    assert_eq!(decimal_string(u64::MAX), u64::MAX.to_string());
}
