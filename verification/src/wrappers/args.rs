//! Configuration records exchanged with the front end.
//!
//! Image-processing thresholds are kept abstract (`Threshold`): the library
//! only stores and forwards them, it never computes with them.
use vstd::prelude::*;

verus! {

/// The value a patch leaves in a slot: the patch's own value where it has
/// one, the current value otherwise.
pub open spec fn patched<A>(current: Option<A>, patch: Option<A>) -> Option<A> {
    match patch {
        Some(v) => Some(v),
        None => current,
    }
}

/// Monitor selection.
#[derive(Debug)]
pub struct MonitorArgsDto {
    pub name: Option<String>,
}

impl MonitorArgsDto {
    pub open spec fn empty() -> MonitorArgsDto {
        MonitorArgsDto { name: None }
    }
}

impl Default for MonitorArgsDto {
    fn default() -> (r: MonitorArgsDto)
        ensures
            r == MonitorArgsDto::empty(),
    {
        MonitorArgsDto { name: None }
    }
}

/// Engine options.
#[derive(Debug)]
pub struct StockfishArgsDto {
    pub path: Option<String>,
    pub elo: Option<usize>,
    pub skill: Option<u8>,
    pub depth: Option<u8>,
    pub hash: Option<usize>,
    pub pv: Option<usize>,
}

impl StockfishArgsDto {
    pub open spec fn empty() -> StockfishArgsDto {
        StockfishArgsDto { path: None, elo: None, skill: None, depth: None, hash: None, pv: None }
    }

    /// The engine options after `patch`. The number of reported lines
    /// (`pv`) is never taken from a patch.
    pub open spec fn merged(self, patch: StockfishArgsDto) -> StockfishArgsDto {
        StockfishArgsDto {
            path: patched(self.path, patch.path),
            elo: patched(self.elo, patch.elo),
            skill: patched(self.skill, patch.skill),
            depth: patched(self.depth, patch.depth),
            hash: patched(self.hash, patch.hash),
            pv: self.pv,
        }
    }
}

impl Default for StockfishArgsDto {
    fn default() -> (r: StockfishArgsDto)
        ensures
            r == StockfishArgsDto::empty(),
    {
        StockfishArgsDto { path: None, elo: None, skill: None, depth: None, hash: None, pv: None }
    }
}

/// Image-processing options.
#[derive(Debug)]
pub struct ImgProcArgsDto<Threshold> {
    pub margin: Option<u8>,
    pub piece_threshold: Option<Threshold>,
    pub extract_piece_threshold: Option<Threshold>,
    pub board_threshold: Option<Threshold>,
    pub difference_level: Option<i32>,
}

impl<Threshold> ImgProcArgsDto<Threshold> {
    pub open spec fn empty() -> ImgProcArgsDto<Threshold> {
        ImgProcArgsDto {
            margin: None,
            piece_threshold: None,
            extract_piece_threshold: None,
            board_threshold: None,
            difference_level: None,
        }
    }

    /// The image-processing options after `patch`: every field is patched.
    pub open spec fn merged(self, patch: ImgProcArgsDto<Threshold>) -> ImgProcArgsDto<Threshold> {
        ImgProcArgsDto {
            margin: patched(self.margin, patch.margin),
            piece_threshold: patched(self.piece_threshold, patch.piece_threshold),
            extract_piece_threshold: patched(
                self.extract_piece_threshold,
                patch.extract_piece_threshold,
            ),
            board_threshold: patched(self.board_threshold, patch.board_threshold),
            difference_level: patched(self.difference_level, patch.difference_level),
        }
    }
}

impl<Threshold> Default for ImgProcArgsDto<Threshold> {
    fn default() -> (r: ImgProcArgsDto<Threshold>)
        ensures
            r == ImgProcArgsDto::<Threshold>::empty(),
    {
        ImgProcArgsDto {
            margin: None,
            piece_threshold: None,
            extract_piece_threshold: None,
            board_threshold: None,
            difference_level: None,
        }
    }
}

/// Board printing options.
#[derive(Debug)]
pub struct EngineArgsDto {
    pub pretty: Option<bool>,
}

impl EngineArgsDto {
    pub open spec fn empty() -> EngineArgsDto {
        EngineArgsDto { pretty: None }
    }
}

impl Default for EngineArgsDto {
    fn default() -> (r: EngineArgsDto)
        ensures
            r == EngineArgsDto::empty(),
    {
        EngineArgsDto { pretty: None }
    }
}

/// The whole external configuration; every section is optional, so the same
/// record also serves as a partial update.
#[derive(Debug)]
pub struct CheatessArgsDto<Threshold> {
    pub verbose: Option<String>,
    pub mode: Option<String>,
    pub monitor: Option<MonitorArgsDto>,
    pub stockfish: Option<StockfishArgsDto>,
    pub proc_image: Option<ImgProcArgsDto<Threshold>>,
    pub engine: Option<EngineArgsDto>,
}

/// A section after a patch section: absent patch keeps the section; a present
/// one creates the section (empty) where it is missing and patches it.
pub open spec fn merged_stockfish(
    current: Option<StockfishArgsDto>,
    patch: Option<StockfishArgsDto>,
) -> Option<StockfishArgsDto> {
    match patch {
        None => current,
        Some(p) => Some(current.unwrap_or(StockfishArgsDto::empty()).merged(p)),
    }
}

/// See [`merged_stockfish`].
pub open spec fn merged_proc_image<Threshold>(
    current: Option<ImgProcArgsDto<Threshold>>,
    patch: Option<ImgProcArgsDto<Threshold>>,
) -> Option<ImgProcArgsDto<Threshold>> {
    match patch {
        None => current,
        Some(p) => Some(current.unwrap_or(ImgProcArgsDto::<Threshold>::empty()).merged(p)),
    }
}

/// See [`merged_stockfish`].
pub open spec fn merged_engine(
    current: Option<EngineArgsDto>,
    patch: Option<EngineArgsDto>,
) -> Option<EngineArgsDto> {
    match patch {
        None => current,
        Some(p) => {
            let base = current.unwrap_or(EngineArgsDto::empty());
            Some(EngineArgsDto { pretty: patched(base.pretty, p.pretty) })
        },
    }
}

/// The monitor section changes only when the patch names a monitor.
pub open spec fn merged_monitor(
    current: Option<MonitorArgsDto>,
    patch: Option<MonitorArgsDto>,
) -> Option<MonitorArgsDto> {
    match patch {
        Some(MonitorArgsDto { name: Some(n) }) => Some(MonitorArgsDto { name: Some(n) }),
        _ => current,
    }
}

impl<Threshold> CheatessArgsDto<Threshold> {
    pub open spec fn empty() -> CheatessArgsDto<Threshold> {
        CheatessArgsDto {
            verbose: None,
            mode: None,
            monitor: None,
            stockfish: None,
            proc_image: None,
            engine: None,
        }
    }

    /// The configuration after applying `patch`.
    pub open spec fn merged(self, patch: CheatessArgsDto<Threshold>) -> CheatessArgsDto<Threshold> {
        CheatessArgsDto {
            verbose: patched(self.verbose, patch.verbose),
            mode: patched(self.mode, patch.mode),
            monitor: merged_monitor(self.monitor, patch.monitor),
            stockfish: merged_stockfish(self.stockfish, patch.stockfish),
            proc_image: merged_proc_image(self.proc_image, patch.proc_image),
            engine: merged_engine(self.engine, patch.engine),
        }
    }
}

impl<Threshold> Default for CheatessArgsDto<Threshold> {
    fn default() -> (r: CheatessArgsDto<Threshold>)
        ensures
            r == CheatessArgsDto::<Threshold>::empty(),
    {
        CheatessArgsDto {
            verbose: None,
            mode: None,
            monitor: None,
            stockfish: None,
            proc_image: None,
            engine: None,
        }
    }
}

} // verus!

verus! {

/// What a patch does to the top-level fields and the monitor: a value the
/// patch carries replaces the current one, a missing one keeps it; the
/// monitor changes exactly when the patch names one.
pub proof fn lemma_patch_top_level<Threshold>(
    config: CheatessArgsDto<Threshold>,
    patch: CheatessArgsDto<Threshold>,
)
    ensures
        patch.verbose is Some ==> config.merged(patch).verbose == patch.verbose,
        patch.verbose is None ==> config.merged(patch).verbose == config.verbose,
        patch.mode is Some ==> config.merged(patch).mode == patch.mode,
        patch.mode is None ==> config.merged(patch).mode == config.mode,
        (patch.monitor matches Some(m) && m.name is Some) ==> config.merged(patch).monitor
            == Some(MonitorArgsDto { name: patch.monitor.unwrap().name }),
        !(patch.monitor matches Some(m) && m.name is Some) ==> config.merged(patch).monitor
            == config.monitor,
{
}

/// What a patch does to the engine section: without an engine section it is
/// kept; with one, the section exists afterwards, and each of path, Elo,
/// skill level, depth and hash size that the patch carries replaces the
/// current one (which is absent where the section was); the others, and the
/// number of lines, keep their current values.
pub proof fn lemma_patch_engine_section<Threshold>(
    config: CheatessArgsDto<Threshold>,
    patch: CheatessArgsDto<Threshold>,
)
    ensures
        patch.stockfish is None ==> config.merged(patch).stockfish == config.stockfish,
        patch.stockfish matches Some(p) ==> {
            let r = config.merged(patch).stockfish;
            let c = config.stockfish;
            &&& r is Some
            &&& r.unwrap().path == if p.path is Some { p.path } else if c is Some { c.unwrap().path } else { None }
            &&& r.unwrap().elo == if p.elo is Some { p.elo } else if c is Some { c.unwrap().elo } else { None }
            &&& r.unwrap().skill == if p.skill is Some { p.skill } else if c is Some { c.unwrap().skill } else { None }
            &&& r.unwrap().depth == if p.depth is Some { p.depth } else if c is Some { c.unwrap().depth } else { None }
            &&& r.unwrap().hash == if p.hash is Some { p.hash } else if c is Some { c.unwrap().hash } else { None }
            &&& r.unwrap().pv == if c is Some { c.unwrap().pv } else { None }
        },
{
}

/// What a patch does to the image-processing section: without one it is
/// kept; with one, the section exists afterwards and every option the patch
/// carries replaces the current one (absent where the section was), the
/// others keeping their current values.
pub proof fn lemma_patch_image_section<Threshold>(
    config: CheatessArgsDto<Threshold>,
    patch: CheatessArgsDto<Threshold>,
)
    ensures
        patch.proc_image is None ==> config.merged(patch).proc_image == config.proc_image,
        patch.proc_image matches Some(p) ==> {
            let r = config.merged(patch).proc_image;
            let c = config.proc_image;
            &&& r is Some
            &&& r.unwrap().margin == if p.margin is Some { p.margin } else if c is Some { c.unwrap().margin } else { None }
            &&& r.unwrap().piece_threshold == if p.piece_threshold is Some { p.piece_threshold } else if c is Some { c.unwrap().piece_threshold } else { None }
            &&& r.unwrap().extract_piece_threshold == if p.extract_piece_threshold is Some { p.extract_piece_threshold } else if c is Some { c.unwrap().extract_piece_threshold } else { None }
            &&& r.unwrap().board_threshold == if p.board_threshold is Some { p.board_threshold } else if c is Some { c.unwrap().board_threshold } else { None }
            &&& r.unwrap().difference_level == if p.difference_level is Some { p.difference_level } else if c is Some { c.unwrap().difference_level } else { None }
        },
        patch.engine is None ==> config.merged(patch).engine == config.engine,
        patch.engine matches Some(p) ==> {
            let r = config.merged(patch).engine;
            let c = config.engine;
            &&& r is Some
            &&& r.unwrap().pretty == if p.pretty is Some { p.pretty } else if c is Some { c.unwrap().pretty } else { None }
        },
{
}

/// Applying a patch that sets nothing leaves the configuration as it was.
pub proof fn lemma_empty_patch_changes_nothing<Threshold>(config: CheatessArgsDto<Threshold>)
    ensures
        config.merged(CheatessArgsDto::<Threshold>::empty()) == config,
{
}

/// Applying the same patch twice is the same as applying it once.
pub proof fn lemma_patch_idempotent<Threshold>(
    config: CheatessArgsDto<Threshold>,
    patch: CheatessArgsDto<Threshold>,
)
    ensures
        config.merged(patch).merged(patch) == config.merged(patch),
{
}

/// Applying two patches one after the other is the same as applying the
/// single patch obtained by merging the second into the first.
pub proof fn lemma_patches_compose<Threshold>(
    config: CheatessArgsDto<Threshold>,
    first: CheatessArgsDto<Threshold>,
    second: CheatessArgsDto<Threshold>,
)
    ensures
        config.merged(first).merged(second) == config.merged(first.merged(second)),
{
    lemma_sections_compose(config, first, second);
}

proof fn lemma_sections_compose<Threshold>(
    config: CheatessArgsDto<Threshold>,
    first: CheatessArgsDto<Threshold>,
    second: CheatessArgsDto<Threshold>,
)
    ensures
        merged_monitor(merged_monitor(config.monitor, first.monitor), second.monitor)
            == merged_monitor(config.monitor, merged_monitor(first.monitor, second.monitor)),
        merged_stockfish(merged_stockfish(config.stockfish, first.stockfish), second.stockfish)
            == merged_stockfish(config.stockfish, merged_stockfish(first.stockfish, second.stockfish)),
        merged_proc_image(merged_proc_image(config.proc_image, first.proc_image), second.proc_image)
            == merged_proc_image(config.proc_image, merged_proc_image(first.proc_image, second.proc_image)),
        merged_engine(merged_engine(config.engine, first.engine), second.engine)
            == merged_engine(config.engine, merged_engine(first.engine, second.engine)),
{
}

} // verus!
