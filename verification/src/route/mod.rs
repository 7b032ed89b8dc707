//! State shared by the routes and the records they answer with.
use vstd::prelude::*;

use crate::interfaces::Summary;
use crate::wrappers::args::CheatessArgsDto;
use crate::wrappers::enums::ColorDto;

pub mod http;
pub mod ws;

verus! {

/// The external configuration, as edited by the front end.
pub type ExtConfig<Threshold> = CheatessArgsDto<Threshold>;

/// A board as eight ranks of eight squares, one character per piece and
/// `' '` for an empty square.
pub type RawBoard = [[char; 8]; 8];

/// Board coordinates on the screen: left, top, width, height.
pub type Coords = (u32, u32, u32, u32);

/// What the backend learned while setting up a game. The board image and the
/// piece templates are images the library only stores.
#[derive(Debug)]
pub struct IntConfig<Image> {
    pub coords: Option<Coords>,
    pub prev_board: Option<RawBoard>,
    pub color: Option<ColorDto>,
    pub prev_board_mat: Option<Image>,
    /// The piece templates, one per piece (see [`IntConfig::well_formed`]).
    pub pieces: Option<Vec<(char, Image)>>,
}

/// No piece has two templates.
pub open spec fn distinct_pieces<Image>(pieces: Seq<(char, Image)>) -> bool {
    forall|i: int, j: int| 0 <= i < j < pieces.len() ==> pieces[i].0 != pieces[j].0
}

impl<Image> IntConfig<Image> {
    /// The piece templates, where present, have one template per piece.
    pub open spec fn well_formed(&self) -> bool {
        self.pieces matches Some(p) ==> distinct_pieces(p@)
    }

    /// Nothing learned yet.
    pub fn new() -> (r: IntConfig<Image>)
        ensures
            r.well_formed(),
            r.coords is None,
            r.prev_board is None,
            r.color is None,
            r.prev_board_mat is None,
            r.pieces is None,
    {
        IntConfig { coords: None, prev_board: None, color: None, prev_board_mat: None, pieces: None }
    }
}

impl<Image> Default for IntConfig<Image> {
    fn default() -> (r: IntConfig<Image>)
        ensures
            r.coords is None,
            r.prev_board is None,
            r.color is None,
            r.prev_board_mat is None,
            r.pieces is None,
    {
        IntConfig::new()
    }
}

impl<Image> Clone for IntConfig<Image> {
    /// Copies what the front end is shown; the images are not copied (they
    /// are never sent) and are absent from the copy.
    fn clone(&self) -> (r: IntConfig<Image>)
        ensures
            r.coords == self.coords,
            r.prev_board == self.prev_board,
            r.color == self.color,
            r.prev_board_mat is None,
            r.pieces is None,
    {
        IntConfig {
            coords: self.coords,
            prev_board: self.prev_board,
            color: self.color,
            prev_board_mat: None,
            pieces: None,
        }
    }
}

/// One analysed line as the front end receives it.
#[derive(Debug)]
pub struct StockfishSummary {
    pub main_line: Vec<String>,
    pub evaluation: String,
}

/// The front-end record of an engine line.
pub open spec fn summary_of(line: Summary) -> StockfishSummary {
    StockfishSummary { main_line: line.main_line, evaluation: line.eval }
}

/// Engine version and, once analysed, the lines found.
#[derive(Debug)]
pub struct StockfishResponse {
    pub version: String,
    pub summary: Option<Vec<StockfishSummary>>,
}

/// Converts every engine line, in order.
pub fn to_stockfish_summaries(lines: Vec<Summary>) -> (r: Vec<StockfishSummary>)
    ensures
        r@ == lines@.map_values(|l: Summary| summary_of(l)),
        r@.len() == lines@.len(),
        forall|j: int| 0 <= j < r@.len() ==> #[trigger] r@[j].main_line == lines@[j].main_line
            && r@[j].evaluation == lines@[j].eval,
{
    let ghost all = lines@;
    let mut rest = lines;
    let mut out: Vec<StockfishSummary> = Vec::new();
    while rest.len() > 0
        invariant
            rest@ == all.skip(out@.len() as int),
            out@.len() <= all.len(),
            out@ == all.take(out@.len() as int).map_values(|l: Summary| summary_of(l)),
        decreases rest@.len(),
    {
        let ghost k = out@.len() as int;
        let line = rest.remove(0);
        assert(all.skip(k + 1) =~= all.skip(k).drop_first());
        out.push(StockfishSummary { main_line: line.main_line, evaluation: line.eval });
        assert(all.take(k + 1).map_values(|l: Summary| summary_of(l)) =~= all.take(k).map_values(
            |l: Summary| summary_of(l),
        ).push(summary_of(all[k])));
    }
    assert(all.take(all.len() as int) =~= all);
    out
}

} // verus!
