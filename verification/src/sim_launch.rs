//! The command line with which the referee box launches its display
//! simulator as a child process.

use vstd::prelude::*;
use crate::decimal_text::{decimal, decimal_string};

verus! {

/// How the display simulator is launched. The window scale and spacing and
/// the log location are held as the text that goes on the command line.
pub struct SimSpawnConfig {
    pub binary_port: u16,
    pub json_port: u16,
    pub scale: String,
    pub spacing: String,
    pub sunlight_mode: bool,
    pub verbose: u8,
    pub log_location: String,
    pub log_max_file_size: u64,
    pub num_old_logs: u32,
}

/// The flags that every launch passes, each followed by its value.
pub open spec fn fixed_args(c: SimSpawnConfig) -> Seq<Seq<char>> {
    seq![
        "--is-simulator"@,
        "--binary-port"@,
        decimal(c.binary_port as nat),
        "--json-port"@,
        decimal(c.json_port as nat),
        "--scale"@,
        c.scale@,
        "--spacing"@,
        c.spacing@,
        "--log-location"@,
        c.log_location@,
        "--log-max-file-size"@,
        decimal(c.log_max_file_size as nat),
        "--num-old-logs"@,
        decimal(c.num_old_logs as nat),
    ]
}

/// The simulator's arguments: the fixed flags, then `--verbose` once per
/// level of verbosity, then `--simulate-sunlight-display` when the sunlight
/// display is simulated.
pub open spec fn sim_argv(c: SimSpawnConfig) -> Seq<Seq<char>> {
    fixed_args(c) + Seq::new(c.verbose as nat, |i: int| "--verbose"@) + if c.sunlight_mode {
        seq!["--simulate-sunlight-display"@]
    } else {
        Seq::empty()
    }
}

/// The simulator's command line: the simulator flag, then each setting's
/// flag followed by its value (the ports and log settings in decimal, the
/// window settings and log location as given), then one `--verbose` per
/// level of verbosity, then the sunlight flag last when it is asked for.
pub proof fn lemma_sim_argv_layout(c: SimSpawnConfig)
    ensures
        sim_argv(c).len() == 15 + c.verbose + (if c.sunlight_mode {
            1int
        } else {
            0
        }),
        sim_argv(c)[0] == "--is-simulator"@,
        sim_argv(c)[1] == "--binary-port"@ && sim_argv(c)[2] == decimal(c.binary_port as nat),
        sim_argv(c)[3] == "--json-port"@ && sim_argv(c)[4] == decimal(c.json_port as nat),
        sim_argv(c)[5] == "--scale"@ && sim_argv(c)[6] == c.scale@,
        sim_argv(c)[7] == "--spacing"@ && sim_argv(c)[8] == c.spacing@,
        sim_argv(c)[9] == "--log-location"@ && sim_argv(c)[10] == c.log_location@,
        sim_argv(c)[11] == "--log-max-file-size"@ && sim_argv(c)[12] == decimal(
            c.log_max_file_size as nat,
        ),
        sim_argv(c)[13] == "--num-old-logs"@ && sim_argv(c)[14] == decimal(c.num_old_logs as nat),
        forall|i: int| 0 <= i < c.verbose ==> #[trigger] sim_argv(c)[15 + i] == "--verbose"@,
        c.sunlight_mode ==> sim_argv(c)[15 + c.verbose] == "--simulate-sunlight-display"@,
{
}

/// The arguments that launch the simulator for `config`.
pub fn build_sim_argv(config: &SimSpawnConfig) -> (r: Vec<String>)
    ensures
        r@.len() == sim_argv(*config).len(),
        forall|i: int| 0 <= i < r@.len() ==> #[trigger] r@[i]@ == sim_argv(*config)[i],
{
    let mut args: Vec<String> = Vec::new();
    args.push(String::from_str("--is-simulator"));
    args.push(String::from_str("--binary-port"));
    args.push(decimal_string(config.binary_port as u64));
    args.push(String::from_str("--json-port"));
    args.push(decimal_string(config.json_port as u64));
    args.push(String::from_str("--scale"));
    args.push(config.scale.clone());
    args.push(String::from_str("--spacing"));
    args.push(config.spacing.clone());
    args.push(String::from_str("--log-location"));
    args.push(config.log_location.clone());
    args.push(String::from_str("--log-max-file-size"));
    args.push(decimal_string(config.log_max_file_size));
    args.push(String::from_str("--num-old-logs"));
    args.push(decimal_string(config.num_old_logs as u64));
    let ghost fixed = fixed_args(*config);
    assert(args@.len() == fixed.len());
    assert(forall|i: int| 0 <= i < fixed.len() ==> #[trigger] args@[i]@ == fixed[i]);
    let mut n: u8 = 0;
    while n < config.verbose
        invariant
            n <= config.verbose,
            fixed == fixed_args(*config),
            args@.len() == fixed.len() + n,
            forall|i: int| 0 <= i < fixed.len() ==> #[trigger] args@[i]@ == fixed[i],
            forall|i: int| fixed.len() <= i < args@.len() ==> #[trigger] args@[i]@ == "--verbose"@,
        decreases config.verbose - n,
    {
        args.push(String::from_str("--verbose"));
        n = n + 1;
    }
    if config.sunlight_mode {
        args.push(String::from_str("--simulate-sunlight-display"));
    }
    args
}

} // verus!
