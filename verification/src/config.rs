//! The static configuration: what a launch is parameterized with, the
//! defaults a fresh configuration is generated from, and the lines a
//! configuration is summarized as.
//!
//! Reading and writing the configuration file, and its on-disk format, are
//! outside this crate; the surrounding program hands the parsed values in
//! and takes the generated values out.

use vstd::prelude::*;
use crate::hardware::GpuInfo;
use crate::hardware::shortened;
use crate::text::bool_str;
use crate::text::bool_text;
use crate::text::dec_of;
use crate::text::dec_u64;

verus! {

/// Account and server settings.
pub struct General {
    /// The name this machine's workers are grouped under; each worker's
    /// hostname is derived from it.
    pub client_name: String,
    pub shared_zip: bool,
    pub username: String,
    pub renderkey: String,
    pub headless: bool,
    /// The render server's URL.
    pub server: String,
    pub debug: bool,
}

/// Filesystem locations used at launch.
pub struct Paths {
    pub sheepit_cache_dir: String,
    pub shared_zip_dir: String,
    /// Where the worker executable is expected, and fetched to if absent.
    pub sheepit_client_location: String,
    pub log_dir: String,
}

/// Resource limits a worker is launched with.
pub struct Defaults {
    pub ram: u16,
    pub cores: u16,
}

/// CPU rendering settings.
pub struct Cpu {
    pub ram: u16,
    pub cores: u16,
    pub enabled: bool,
}

/// Per-GPU rendering settings.
pub struct Gpu {
    pub ram: u16,
    pub cores: u16,
    pub optix_id: String,
    pub enabled: bool,
}

/// One GPU section of the configuration, under its section key.
pub struct GpuEntry {
    /// The section key, derived from the GPU's short name and index.
    pub key: String,
    pub gpu: Gpu,
}

/// The whole static configuration.
pub struct Config {
    pub general: General,
    pub paths: Paths,
    pub defaults: Defaults,
    pub cpu: Cpu,
    /// The GPU sections, one per detected GPU, keys distinct by
    /// construction (each embeds the GPU's index).
    pub gpu: Vec<GpuEntry>,
}

/// The key a detected GPU's section is generated under.
pub open spec fn gpu_key_text(g: GpuInfo) -> Seq<char> {
    shortened(g.gpu_name@) + "-"@ + dec_of(g.index as nat)
}

/// The OptiX identifier a detected GPU's section is generated with.
pub open spec fn optix_id_text(g: GpuInfo) -> Seq<char> {
    "OPTIX_"@ + dec_of(g.index as nat)
}

/// What a freshly generated configuration holds, given the detected GPUs.
pub open spec fn is_default_config(c: Config, gpus: Seq<GpuInfo>) -> bool {
    &&& c.general.client_name@ == Seq::<char>::empty()
    &&& c.general.shared_zip == false
    &&& c.general.username@ == Seq::<char>::empty()
    &&& c.general.renderkey@ == Seq::<char>::empty()
    &&& c.general.headless == true
    &&& c.general.server@ == "https://sheepit-renderfarm.com"@
    &&& c.general.debug == false
    &&& c.paths.sheepit_cache_dir@ == "/tmp/sheepitm/cache"@
    &&& c.paths.shared_zip_dir@ == Seq::<char>::empty()
    &&& c.paths.sheepit_client_location@ == "/tmp/sheepitm/client.jar"@
    &&& c.paths.log_dir@ == "/tmp/sheepitm/logs"@
    &&& c.defaults.ram == 0
    &&& c.defaults.cores == 0
    &&& c.cpu.ram == 0
    &&& c.cpu.cores == 0
    &&& c.cpu.enabled == false
    &&& c.gpu@.len() == gpus.len()
    &&& forall|i: int|
        0 <= i < gpus.len() ==> {
            &&& (#[trigger] c.gpu@[i]).key@ == gpu_key_text(gpus[i])
            &&& c.gpu@[i].gpu.ram == 0
            &&& c.gpu@[i].gpu.cores == 0
            &&& c.gpu@[i].gpu.optix_id@ == optix_id_text(gpus[i])
            &&& c.gpu@[i].gpu.enabled == true
        }
}

/// The configuration a `gen-config` run writes: empty credentials, the
/// public render server, paths under `/tmp/sheepitm`, everything disabled,
/// and one section per detected GPU.
pub fn default_config(gpus: &Vec<GpuInfo>) -> (c: Config)
    ensures
        is_default_config(c, gpus@),
{
    let mut entries: Vec<GpuEntry> = Vec::new();
    let mut i: usize = 0;
    while i < gpus.len()
        invariant
            i <= gpus@.len(),
            entries@.len() == i,
            forall|j: int|
                0 <= j < i ==> {
                    &&& (#[trigger] entries@[j]).key@ == gpu_key_text(gpus@[j])
                    &&& entries@[j].gpu.ram == 0
                    &&& entries@[j].gpu.cores == 0
                    &&& entries@[j].gpu.optix_id@ == optix_id_text(gpus@[j])
                    &&& entries@[j].gpu.enabled == true
                },
        decreases gpus@.len() - i,
    {
        let g = &gpus[i];
        let index_text = dec_u64(g.index as u64);
        let mut optix_id = String::from_str("OPTIX_");
        optix_id.append(index_text.as_str());
        let mut key = crate::hardware::shorten_gpu_name(g.gpu_name.as_str());
        key.append("-");
        key.append(index_text.as_str());
        entries.push(GpuEntry { key, gpu: Gpu { ram: 0, cores: 0, optix_id, enabled: true } });
        i = i + 1;
    }
    Config {
        general: General {
            client_name: String::new(),
            shared_zip: false,
            username: String::new(),
            renderkey: String::new(),
            headless: true,
            server: String::from_str("https://sheepit-renderfarm.com"),
            debug: false,
        },
        paths: Paths {
            sheepit_cache_dir: String::from_str("/tmp/sheepitm/cache"),
            shared_zip_dir: String::new(),
            sheepit_client_location: String::from_str("/tmp/sheepitm/client.jar"),
            log_dir: String::from_str("/tmp/sheepitm/logs"),
        },
        defaults: Defaults { ram: 0, cores: 0 },
        cpu: Cpu { ram: 0, cores: 0, enabled: false },
        gpu: entries,
    }
}

/// A whitespace character, as far as trimming an operator's reply goes.
pub open spec fn is_space(c: char) -> bool {
    c == ' ' || c == '\t' || c == '\n' || c == '\r'
}

/// `s` without leading whitespace.
pub open spec fn trim_front(s: Seq<char>) -> Seq<char>
    decreases s.len(),
{
    if s.len() > 0 && is_space(s[0]) {
        trim_front(s.drop_first())
    } else {
        s
    }
}

/// `s` without trailing whitespace.
pub open spec fn trim_back(s: Seq<char>) -> Seq<char>
    decreases s.len(),
{
    if s.len() > 0 && is_space(s.last()) {
        trim_back(s.drop_last())
    } else {
        s
    }
}

/// `s` without leading and trailing whitespace.
pub open spec fn trim_of(s: Seq<char>) -> Seq<char> {
    trim_back(trim_front(s))
}

/// Whether a reply, once trimmed, is the single letter `y` in either case.
pub open spec fn affirmative(s: Seq<char>) -> bool {
    trim_of(s) == seq!['y'] || trim_of(s) == seq!['Y']
}

/// Whether the character of `s` at `i` counts as whitespace.
fn is_space_at(s: &str, i: usize) -> (r: bool)
    requires
        i < s@.len(),
    ensures
        r == is_space(s@[i as int]),
{
    let c = s.get_char(i);
    c == ' ' || c == '\t' || c == '\n' || c == '\r'
}

/// The decision whether to write a fresh configuration file: write freely
/// when none exists; when one does, only an affirmative reply (`y` or `Y`,
/// surrounding whitespace ignored) confirms the overwrite.
#[verifier::rlimit(50)]
pub fn confirm_overwrite(exists: bool, reply: &str) -> (r: bool)
    ensures
        r == ((!exists) || affirmative(reply@)),
{
    if !exists {
        return true;
    }
    let n = reply.unicode_len();
    let mut lo: usize = 0;
    proof {
        assert(reply@.skip(0) =~= reply@);
    }
    while lo < n && is_space_at(reply, lo)
        invariant
            lo <= n,
            n == reply@.len(),
            trim_front(reply@) == trim_front(reply@.skip(lo as int)),
        decreases n - lo,
    {
        proof {
            assert(reply@.skip(lo as int).drop_first() =~= reply@.skip(lo as int + 1));
        }
        lo = lo + 1;
    }
    let ghost head = reply@.skip(lo as int);
    proof {
        assert(trim_front(reply@) == head);
    }
    let mut hi: usize = n;
    proof {
        assert(reply@.skip(lo as int) =~= reply@.subrange(lo as int, n as int));
    }
    while hi > lo && is_space_at(reply, hi - 1)
        invariant
            lo <= hi <= n,
            n == reply@.len(),
            head == reply@.skip(lo as int),
            trim_back(head) == trim_back(reply@.subrange(lo as int, hi as int)),
        decreases hi,
    {
        proof {
            assert(reply@.subrange(lo as int, hi as int).drop_last() =~= reply@.subrange(
                lo as int,
                hi as int - 1,
            ));
            assert(reply@.subrange(lo as int, hi as int).last() == reply@[hi as int - 1]);
        }
        hi = hi - 1;
    }
    let ghost trimmed = reply@.subrange(lo as int, hi as int);
    proof {
        assert(trim_of(reply@) == trimmed) by {
            if hi > lo {
                assert(trimmed.last() == reply@[hi as int - 1]);
                assert(!is_space(trimmed.last()));
            } else {
                assert(trimmed.len() == 0);
            }
        }
    }
    if hi - lo != 1 {
        proof {
            assert(trimmed.len() != 1);
            assert(!affirmative(reply@));
        }
        return false;
    }
    let c = reply.get_char(lo);
    proof {
        assert(trimmed[0] == reply@[lo as int]);
        assert(trimmed.len() == 1);
        assert(trimmed =~= seq![reply@[lo as int]]);
        assert(affirmative(reply@) == (reply@[lo as int] == 'y' || reply@[lo as int] == 'Y'))
            by {
            if trimmed == seq!['y'] {
                assert(trimmed[0] == 'y');
            }
            if trimmed == seq!['Y'] {
                assert(trimmed[0] == 'Y');
            }
        }
    }
    c == 'y' || c == 'Y'
}

/// The first summary line: the account and client names.
pub open spec fn user_line_text(c: Config) -> Seq<char> {
    "User: \""@ + c.general.username@ + "\", Client Name: \""@ + c.general.client_name@ + "\""@
}

/// The second summary line: the cache directory and executable location.
pub open spec fn paths_line_text(c: Config) -> Seq<char> {
    "Using Cache dir: \""@ + c.paths.sheepit_cache_dir@ + "\" and client: \""@
        + c.paths.sheepit_client_location@ + "\""@
}

/// The third summary line: the CPU settings.
pub open spec fn cpu_line_text(c: Config) -> Seq<char> {
    "CPU -> Cores: "@ + dec_of(c.cpu.cores as nat) + ", RAM: "@ + dec_of(c.cpu.ram as nat)
        + ", Enabled: "@ + bool_text(c.cpu.enabled)
}

/// One summary line per GPU section.
pub open spec fn gpu_line_text(e: GpuEntry) -> Seq<char> {
    e.key@ + " -> Cores: "@ + dec_of(e.gpu.cores as nat) + ", RAM: "@ + dec_of(e.gpu.ram as nat)
        + ", Optix ID: "@ + e.gpu.optix_id@ + ", Enabled: "@ + bool_text(e.gpu.enabled)
}

/// Every line of the configuration summary, in order.
pub open spec fn summary_text(c: Config) -> Seq<Seq<char>> {
    seq![user_line_text(c), paths_line_text(c), cpu_line_text(c)] + Seq::new(
        c.gpu@.len(),
        |i: int| gpu_line_text(c.gpu@[i]),
    )
}

/// Renders the configuration as the lines the operator is shown.
#[verifier::rlimit(50)]
pub fn config_summary(c: &Config) -> (lines: Vec<String>)
    ensures
        lines.deep_view() == summary_text(*c),
{
    let mut lines: Vec<String> = Vec::new();
    let mut user_line = String::from_str("User: \"");
    user_line.append(c.general.username.as_str());
    user_line.append("\", Client Name: \"");
    user_line.append(c.general.client_name.as_str());
    user_line.append("\"");
    lines.push(user_line);
    let mut paths_line = String::from_str("Using Cache dir: \"");
    paths_line.append(c.paths.sheepit_cache_dir.as_str());
    paths_line.append("\" and client: \"");
    paths_line.append(c.paths.sheepit_client_location.as_str());
    paths_line.append("\"");
    lines.push(paths_line);
    let mut cpu_line = String::from_str("CPU -> Cores: ");
    cpu_line.append(dec_u64(c.cpu.cores as u64).as_str());
    cpu_line.append(", RAM: ");
    cpu_line.append(dec_u64(c.cpu.ram as u64).as_str());
    cpu_line.append(", Enabled: ");
    cpu_line.append(bool_str(c.cpu.enabled));
    lines.push(cpu_line);
    let mut i: usize = 0;
    while i < c.gpu.len()
        invariant
            i <= c.gpu@.len(),
            lines@.len() == 3 + i,
            lines@[0]@ == user_line_text(*c),
            lines@[1]@ == paths_line_text(*c),
            lines@[2]@ == cpu_line_text(*c),
            forall|k: int| 3 <= k < 3 + i ==> (#[trigger] lines@[k])@ == gpu_line_text(
                c.gpu@[k - 3],
            ),
        decreases c.gpu@.len() - i,
    {
        let e = &c.gpu[i];
        let mut line = e.key.clone();
        line.append(" -> Cores: ");
        line.append(dec_u64(e.gpu.cores as u64).as_str());
        line.append(", RAM: ");
        line.append(dec_u64(e.gpu.ram as u64).as_str());
        line.append(", Optix ID: ");
        line.append(e.gpu.optix_id.as_str());
        line.append(", Enabled: ");
        line.append(bool_str(e.gpu.enabled));
        lines.push(line);
        i = i + 1;
    }
    proof {
        assert forall|k: int| 0 <= k < lines@.len() implies lines.deep_view()[k] == summary_text(
            *c,
        )[k] by {
            assert(lines.deep_view()[k] == lines@[k]@);
        }
        assert(lines.deep_view() =~= summary_text(*c));
    }
    lines
}

} // verus!
