//! Setting up the chess engine.
use vstd::prelude::*;

use crate::decimal::{decimal, decimal_string, is_digit, lemma_decimal_denotes, parse_decimal};
use crate::interfaces::{CheatessError, EngineOptions, FuncWrapper, StockfishLike};
use crate::route::StockfishResponse;
use crate::wrappers::args::{CheatessArgsDto, StockfishArgsDto};

verus! {

/// The search depth every engine is created with.
pub const ENGINE_DEPTH: u8 = 5;

/// The engine options are all configured.
pub open spec fn has_engine_options(args: StockfishArgsDto) -> bool {
    &&& args.elo is Some
    &&& args.skill is Some
    &&& args.hash is Some
    &&& args.pv is Some
}

/// The options as handed to the engine: each number in decimal.
pub open spec fn engine_options(args: StockfishArgsDto) -> EngineOptions {
    (
        decimal(args.elo.unwrap() as nat),
        decimal(args.skill.unwrap() as nat),
        decimal(args.hash.unwrap() as nat),
        decimal(args.pv.unwrap() as nat),
    )
}

/// Each option handed to the engine is the decimal text of the configured
/// number in its place: read back in base 10, the first is the Elo, the
/// second the skill level, the third the hash size and the fourth the number
/// of lines; all consist of ASCII digits.
pub proof fn lemma_engine_options_are_configured_numbers(args: StockfishArgsDto)
    requires
        has_engine_options(args),
    ensures
        parse_decimal(engine_options(args).0) == args.elo.unwrap(),
        parse_decimal(engine_options(args).1) == args.skill.unwrap(),
        parse_decimal(engine_options(args).2) == args.hash.unwrap(),
        parse_decimal(engine_options(args).3) == args.pv.unwrap(),
        forall|i: int| 0 <= i < engine_options(args).0.len() ==> #[trigger] is_digit(engine_options(args).0[i]),
        forall|i: int| 0 <= i < engine_options(args).1.len() ==> #[trigger] is_digit(engine_options(args).1[i]),
        forall|i: int| 0 <= i < engine_options(args).2.len() ==> #[trigger] is_digit(engine_options(args).2[i]),
        forall|i: int| 0 <= i < engine_options(args).3.len() ==> #[trigger] is_digit(engine_options(args).3[i]),
{
    lemma_decimal_denotes(args.elo.unwrap() as nat);
    lemma_decimal_denotes(args.skill.unwrap() as nat);
    lemma_decimal_denotes(args.hash.unwrap() as nat);
    lemma_decimal_denotes(args.pv.unwrap() as nat);
}

/// What engine set-up answers, given the engine's version and the outcome of
/// configuring it: the version when configuring succeeded, its error
/// otherwise.
pub fn stockfish_response(version: String, configured: Result<(), CheatessError>) -> (r: Result<
    StockfishResponse,
    CheatessError,
>)
    ensures
        match configured {
            Ok(()) => r matches Ok(resp) && resp.version == version && resp.summary is None,
            Err(e) => r == Err::<StockfishResponse, CheatessError>(e),
        },
{
    match configured {
        Ok(()) => Ok(StockfishResponse { version, summary: None }),
        Err(e) => Err(e),
    }
}

/// `engine` is the engine that engine set-up configures: the stored one, or,
/// where none is stored, one as created from `engine_path` with depth
/// [`ENGINE_DEPTH`].
pub open spec fn engine_to_configure<F: FuncWrapper>(
    funcs: F,
    engine_path: Option<&str>,
    stored: Option<F::Engine>,
    engine: F::Engine,
) -> bool {
    match stored {
        Some(b) => engine == b,
        None => engine_path matches Some(p) && funcs.is_created(p@, ENGINE_DEPTH, engine),
    }
}

/// The helpers used by the running service.
pub struct ProdFunc;

impl ProdFunc {
    /// Makes sure an engine runs and applies the configured options to it.
    ///
    /// Where `stockfish` holds no engine yet, one is created from
    /// `engine_path` with depth [`ENGINE_DEPTH`]; otherwise the engine there
    /// is kept. Its Elo, skill level, hash size and line count, from
    /// `ext_config`, are then sent to it in decimal. The answer is the
    /// engine's version, or the error with which the engine refused the
    /// options.
    pub fn init_stockfish<F: FuncWrapper, Threshold>(
        &self,
        funcs: &F,
        engine_path: Option<&str>,
        stockfish: &mut Option<F::Engine>,
        ext_config: &CheatessArgsDto<Threshold>,
    ) -> (r: Result<StockfishResponse, CheatessError>)
        requires
            *old(stockfish) is None ==> (engine_path matches Some(p) && funcs.creates_stockfish(
                p@,
                ENGINE_DEPTH,
            )),
            ext_config.stockfish matches Some(args) && has_engine_options(args),
        ensures
            exists|engine: F::Engine|
                #[trigger] engine_to_configure(*funcs, engine_path, *old(stockfish), engine) && {
                    let options = engine_options(ext_config.stockfish.unwrap());
                    &&& *final(stockfish) == Some(engine.configured(options))
                    &&& r is Ok <==> engine.accepts(options)
                    &&& r matches Ok(resp) ==> resp.version@ == engine.version() && resp.summary
                        is None
                    &&& r matches Err(e) ==> e == engine.refusal(options)
                },
            *final(stockfish) is Some,
            *old(stockfish) matches Some(before) ==> final(stockfish).unwrap().version()
                == before.version(),
            r matches Ok(resp) ==> {
                &&& resp.version@ == final(stockfish).unwrap().version()
                &&& resp.summary is None
                &&& final(stockfish).unwrap().applied_options() == Some(
                    engine_options(ext_config.stockfish.unwrap()),
                )
                &&& final(stockfish).unwrap().applied_options() matches Some(applied)
                &&& parse_decimal(applied.0) == ext_config.stockfish.unwrap().elo.unwrap()
                &&& parse_decimal(applied.1) == ext_config.stockfish.unwrap().skill.unwrap()
                &&& parse_decimal(applied.2) == ext_config.stockfish.unwrap().hash.unwrap()
                &&& parse_decimal(applied.3) == ext_config.stockfish.unwrap().pv.unwrap()
            },
    {
        let mut engine = match stockfish.take() {
            Some(engine) => engine,
            None => funcs._create_stockfish(engine_path.unwrap(), ENGINE_DEPTH).unwrap(),
        };
        proof {
            lemma_engine_options_are_configured_numbers(ext_config.stockfish.unwrap());
        }
        let ghost chosen = engine;
        assert(engine_to_configure(*funcs, engine_path, *old(stockfish), chosen));
        let version = engine.get_version();
        let args = ext_config.stockfish.as_ref().unwrap();
        let elo = decimal_string(args.elo.unwrap() as u64);
        let skill = decimal_string(args.skill.unwrap() as u64);
        let hash = decimal_string(args.hash.unwrap() as u64);
        let multi_lines = decimal_string(args.pv.unwrap() as u64);
        let configured = engine.set_config(
            elo.as_str(),
            skill.as_str(),
            hash.as_str(),
            multi_lines.as_str(),
        );
        *stockfish = Some(engine);
        stockfish_response(version, configured)
    }
}

} // verus!
