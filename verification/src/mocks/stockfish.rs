//! An engine stand-in whose answers are set in advance.
use vstd::prelude::*;

use crate::interfaces::{CheatessError, EngineOptions, StockfishLike, Summary};

verus! {

/// An engine that reports `version`, hands out `summary` once, and fails
/// `set_config` / `make_move` when the matching flag is set.
pub struct MockStockfish {
    pub version: String,
    pub summary: Option<Vec<Summary>>,
    pub set_config_failed: bool,
    pub make_move_failed: bool,
    /// The options applied by the last successful `set_config`.
    pub applied: Ghost<Option<EngineOptions>>,
}

impl Default for MockStockfish {
    fn default() -> (r: MockStockfish)
        ensures
            r.version@ == Seq::<char>::empty(),
            r.summary is None,
            !r.set_config_failed,
            !r.make_move_failed,
            r.applied@ is None,
    {
        MockStockfish {
            version: String::new(),
            summary: None,
            set_config_failed: false,
            make_move_failed: false,
            applied: Ghost(None),
        }
    }
}

impl MockStockfish {
    /// A mock that reports the version `"mock"` and succeeds everywhere but
    /// in `get_summary`.
    pub fn with_mock_version() -> (r: MockStockfish)
        ensures
            r.version@ == "mock"@,
            r.summary is None,
            !r.set_config_failed,
            !r.make_move_failed,
            r.applied@ is None,
    {
        MockStockfish {
            version: String::from_str("mock"),
            summary: None,
            set_config_failed: false,
            make_move_failed: false,
            applied: Ghost(None),
        }
    }
}

impl StockfishLike for MockStockfish {
    open spec fn version(&self) -> Seq<char> {
        self.version@
    }

    open spec fn applied_options(&self) -> Option<EngineOptions> {
        self.applied@
    }

    /// Options are accepted unless the mock is set to refuse them.
    open spec fn accepts(&self, options: EngineOptions) -> bool {
        !self.set_config_failed
    }

    open spec fn refusal(&self, options: EngineOptions) -> CheatessError {
        CheatessError::NoMoveDetected
    }

    /// A refusing mock is left as it was; otherwise it records the options.
    open spec fn configured(&self, options: EngineOptions) -> MockStockfish {
        if self.set_config_failed {
            *self
        } else {
            MockStockfish { applied: Ghost(Some(options)), ..*self }
        }
    }

    fn get_version(&self) -> (r: String) {
        self.version.clone()
    }

    fn set_config(
        &mut self,
        elo: &str,
        skill: &str,
        hash: &str,
        multi_lines: &str,
    ) -> (r: Result<(), CheatessError>)
    {
        if self.set_config_failed {
            Err(CheatessError::NoMoveDetected)
        } else {
            self.applied = Ghost(Some((elo@, skill@, hash@, multi_lines@)));
            Ok(())
        }
    }

    fn get_summary(&mut self, search_lines: usize) -> (r: Result<Vec<Summary>, CheatessError>)
        ensures
            final(self).summary is None,
            final(self).version == old(self).version,
            final(self).set_config_failed == old(self).set_config_failed,
            final(self).make_move_failed == old(self).make_move_failed,
            final(self).applied == old(self).applied,
            match old(self).summary {
                Some(s) => r == Ok::<Vec<Summary>, CheatessError>(s),
                None => r matches Err(e) && e is NoMoveDetected,
            },
    {
        match self.summary.take() {
            Some(s) => Ok(s),
            None => Err(CheatessError::NoMoveDetected),
        }
    }

    fn make_move(&mut self, moves: Vec<String>) -> (r: Result<(), CheatessError>)
        ensures
            *final(self) == *old(self),
            r is Err <==> old(self).make_move_failed,
            r matches Err(e) ==> e is NoMoveDetected,
    {
        if self.make_move_failed {
            Err(CheatessError::NoMoveDetected)
        } else {
            Ok(())
        }
    }
}

} // verus!
