use vstd::prelude::*;

verus! {

/// The command-line flags: `--gen-config <path>`, `--config <path>` (`-c`)
/// and `--global-config <path>`, each optional.
pub struct Arguments {
    /// generate default config
    pub gen_config: Option<String>,
    /// path to config
    pub config: Option<String>,
    /// path to the global config with zerostate and static dht nodes
    pub global_config: Option<String>,
}

/// What the process does, as selected by the flags.
pub enum Mode {
    /// Write a freshly generated configuration to `path`.
    GenerateConfig { path: String },
    /// Load both configurations and run the node.
    Run { config: String, global_config: String },
    /// Any other combination of flags.
    Invalid,
}

/// The mathematical value of a [`Mode`]: paths as character sequences.
pub enum ModeView {
    GenerateConfig { path: Seq<char> },
    Run { config: Seq<char>, global_config: Seq<char> },
    Invalid,
}

/// The mathematical value of [`Arguments`].
pub struct ArgumentsView {
    pub gen_config: Option<Seq<char>>,
    pub config: Option<Seq<char>>,
    pub global_config: Option<Seq<char>>,
}

pub open spec fn path_view(p: Option<String>) -> Option<Seq<char>> {
    match p {
        Some(s) => Some(s@),
        None => None,
    }
}

impl View for Arguments {
    type V = ArgumentsView;

    open spec fn view(&self) -> ArgumentsView {
        ArgumentsView {
            gen_config: path_view(self.gen_config),
            config: path_view(self.config),
            global_config: path_view(self.global_config),
        }
    }
}

impl View for Mode {
    type V = ModeView;

    open spec fn view(&self) -> ModeView {
        match self {
            Mode::GenerateConfig { path } => ModeView::GenerateConfig { path: path@ },
            Mode::Run { config, global_config } => ModeView::Run {
                config: config@,
                global_config: global_config@,
            },
            Mode::Invalid => ModeView::Invalid,
        }
    }
}

/// The selection rule: exactly one of `--gen-config` and the pair
/// `--config`, `--global-config` must be given; any other combination is
/// invalid.
pub open spec fn mode_of(a: ArgumentsView) -> ModeView {
    match (a.gen_config, a.config, a.global_config) {
        (Some(_), Some(_), Some(_)) => ModeView::Invalid,
        (Some(path), _, _) => ModeView::GenerateConfig { path },
        (None, Some(config), Some(global_config)) => ModeView::Run { config, global_config },
        _ => ModeView::Invalid,
    }
}

impl Arguments {
    /// Selects the mode of the process from the flags.
    pub fn mode(self) -> (m: Mode)
        ensures
            m@ == mode_of(self@),
    {
        match (self.gen_config, self.config, self.global_config) {
            (Some(_), Some(_), Some(_)) => Mode::Invalid,
            (Some(path), _, _) => Mode::GenerateConfig { path },
            (None, Some(config), Some(global_config)) => Mode::Run { config, global_config },
            _ => Mode::Invalid,
        }
    }
}

/// The message printed on stderr for an invalid combination of flags.
pub fn unknown_parameters() -> (r: &'static str)
    ensures
        r@ == "unknown parameters"@,
{
    "unknown parameters"
}

/// A configuration path without the global configuration path, or no path
/// at all, never starts the node: such flags select the invalid mode.
pub proof fn lemma_incomplete_flags_are_invalid(a: ArgumentsView)
    requires
        a.gen_config is None,
        a.config is None || a.global_config is None,
    ensures
        mode_of(a) == ModeView::Invalid,
{
}

} // verus!
