//! Helpers whose answers are set in advance.
use vstd::prelude::*;

use crate::interfaces::{CheatessError, FuncWrapper};
use crate::mocks::stockfish::MockStockfish;
use crate::route::{Coords, StockfishResponse};
use crate::wrappers::enums::ColorDto;

verus! {

/// Stand-ins for the screen helpers: each answers with its preset value, or
/// with `MonitorNotFound` where none is set.
pub struct MockFunc<Image, Monitor> {
    pub mat: Option<Image>,
    pub crop_mat: Option<Image>,
    pub monitor: Option<Monitor>,
    /// Preset piece templates; the helpers it stands for give one per piece.
    pub map: Option<Vec<(char, Image)>>,
    pub coords: Option<Coords>,
    pub stockfish_ptr: Option<MockStockfish>,
    pub init_stockfish_ok: bool,
    pub detect_color_ok: bool,
}

/// The preset answer, or `MonitorNotFound`.
pub open spec fn preset<A: Clone>(value: Option<A>, r: Result<A, CheatessError>) -> bool {
    match value {
        Some(v) => r matches Ok(x) && cloned(v, x),
        None => r == Err::<A, CheatessError>(CheatessError::MonitorNotFound),
    }
}

fn answer<A: Clone>(value: &Option<A>) -> (r: Result<A, CheatessError>)
    ensures
        preset(*value, r),
{
    match value {
        Some(v) => Ok(v.clone()),
        None => Err(CheatessError::MonitorNotFound),
    }
}

impl<Image, Monitor> Default for MockFunc<Image, Monitor> {
    /// Nothing preset; the engine set-up and colour detection fail.
    fn default() -> (r: MockFunc<Image, Monitor>)
        ensures
            r.mat is None,
            r.crop_mat is None,
            r.monitor is None,
            r.map is None,
            r.coords is None,
            r.stockfish_ptr is None,
            !r.init_stockfish_ok,
            !r.detect_color_ok,
    {
        MockFunc {
            mat: None,
            crop_mat: None,
            monitor: None,
            map: None,
            coords: None,
            stockfish_ptr: None,
            init_stockfish_ok: false,
            detect_color_ok: false,
        }
    }
}

impl<Image: Clone, Monitor: Clone> MockFunc<Image, Monitor> {
    /// Nothing preset; the engine set-up and colour detection succeed.
    pub fn passing() -> (r: MockFunc<Image, Monitor>)
        ensures
            r.mat is None,
            r.crop_mat is None,
            r.monitor is None,
            r.map is None,
            r.coords is None,
            r.stockfish_ptr is None,
            r.init_stockfish_ok,
            r.detect_color_ok,
    {
        MockFunc {
            mat: None,
            crop_mat: None,
            monitor: None,
            map: None,
            coords: None,
            stockfish_ptr: None,
            init_stockfish_ok: true,
            detect_color_ok: true,
        }
    }

    pub fn capture_screen_as_mat(&self, monitor_name: Option<String>) -> (r: Result<Image, CheatessError>)
        ensures
            preset(self.mat, r),
    {
        answer(&self.mat)
    }

    pub fn crop_board(&self, screen: &Image, coords: Coords) -> (r: Result<Image, CheatessError>)
        ensures
            preset(self.crop_mat, r),
    {
        answer(&self.crop_mat)
    }

    pub fn get_monitor(&self, monitor_name: Option<String>) -> (r: Result<Monitor, CheatessError>)
        ensures
            preset(self.monitor, r),
    {
        answer(&self.monitor)
    }

    pub fn get_pieces<Threshold>(
        &self,
        board: &Image,
        margin: u8,
        threshold: Threshold,
        color: &ColorDto,
    ) -> (r: Result<Vec<(char, Image)>, CheatessError>)
        ensures
            preset(self.map, r),
    {
        answer(&self.map)
    }

    pub fn get_coords(&self, board: &Image) -> (r: Result<Coords, CheatessError>)
        ensures
            match self.coords {
                Some(c) => r == Ok::<Coords, CheatessError>(c),
                None => r == Err::<Coords, CheatessError>(CheatessError::MonitorNotFound),
            },
    {
        match self.coords {
            Some(c) => Ok(c),
            None => Err(CheatessError::MonitorNotFound),
        }
    }

    /// Answers with version `"1"` when set up to succeed.
    pub fn init_stockfish(&self) -> (r: Result<StockfishResponse, CheatessError>)
        ensures
            self.init_stockfish_ok ==> (r matches Ok(resp) && resp.version@ == "1"@
                && resp.summary is None),
            !self.init_stockfish_ok ==> r == Err::<StockfishResponse, CheatessError>(
                CheatessError::MonitorNotFound,
            ),
    {
        if self.init_stockfish_ok {
            Ok(StockfishResponse { version: String::from_str("1"), summary: None })
        } else {
            Err(CheatessError::MonitorNotFound)
        }
    }
}

impl<Image, Monitor> FuncWrapper for MockFunc<Image, Monitor> {
    type Engine = MockStockfish;

    type Image = Image;

    /// An engine is handed out whenever one is preset.
    open spec fn creates_stockfish(&self, path: Seq<char>, depth: u8) -> bool {
        self.stockfish_ptr is Some
    }

    /// The engine handed out is a default mock: empty version, nothing to
    /// analyse, accepting everything.
    open spec fn is_created(&self, path: Seq<char>, depth: u8, engine: MockStockfish) -> bool {
        &&& engine.version@ == Seq::<char>::empty()
        &&& engine.summary is None
        &&& !engine.set_config_failed
        &&& !engine.make_move_failed
        &&& engine.applied@ is None
    }

    fn _create_stockfish(&self, path: &str, depth: u8) -> (r: Option<MockStockfish>) {
        if self.stockfish_ptr.is_some() {
            Some(MockStockfish::default())
        } else {
            None
        }
    }

    fn detect_player_color(&self, gray_board: &Image) -> (r: Result<ColorDto, CheatessError>)
        ensures
            self.detect_color_ok ==> r == Ok::<ColorDto, CheatessError>(ColorDto::White),
            !self.detect_color_ok ==> r == Err::<ColorDto, CheatessError>(
                CheatessError::MonitorNotFound,
            ),
    {
        if self.detect_color_ok {
            Ok(ColorDto::White)
        } else {
            Err(CheatessError::MonitorNotFound)
        }
    }
}

} // verus!
