//! GPU enumeration and the derivation of short GPU names.
//!
//! The hardware probe itself is NVML's; this module states only what holds
//! of every probe outcome, and verifies the text processing that turns a
//! reported device name into the short form used for configuration keys.

use vstd::prelude::*;

verus! {

/// One NVIDIA GPU as the driver reports it.
#[derive(Debug, Clone)]
pub struct GpuInfo {
    /// The device's index, as enumerated by the driver.
    pub index: u32,
    /// The full device name, e.g. `NVIDIA GeForce RTX 3080`.
    pub gpu_name: String,
    /// The shortened name, e.g. `3080`; see [`shortened`].
    pub short_name: String,
}

/// Removes every occurrence of `pat` from `s`, scanning left to right
/// without revisiting spliced-together text.
pub open spec fn remove_all(s: Seq<char>, pat: Seq<char>) -> Seq<char>
    recommends
        pat.len() > 0,
    decreases s.len(),
{
    if pat.len() == 0 {
        s
    } else if s.len() >= pat.len() && s.take(pat.len() as int) == pat {
        remove_all(s.skip(pat.len() as int), pat)
    } else if s.len() == 0 {
        s
    } else {
        seq![s[0]] + remove_all(s.drop_first(), pat)
    }
}

/// Maps an ASCII capital letter to its small form; any other character is
/// kept as it is.
pub open spec fn lower_char(c: char) -> char {
    if c == 'A' {
        'a'
    } else if c == 'B' {
        'b'
    } else if c == 'C' {
        'c'
    } else if c == 'D' {
        'd'
    } else if c == 'E' {
        'e'
    } else if c == 'F' {
        'f'
    } else if c == 'G' {
        'g'
    } else if c == 'H' {
        'h'
    } else if c == 'I' {
        'i'
    } else if c == 'J' {
        'j'
    } else if c == 'K' {
        'k'
    } else if c == 'L' {
        'l'
    } else if c == 'M' {
        'm'
    } else if c == 'N' {
        'n'
    } else if c == 'O' {
        'o'
    } else if c == 'P' {
        'p'
    } else if c == 'Q' {
        'q'
    } else if c == 'R' {
        'r'
    } else if c == 'S' {
        's'
    } else if c == 'T' {
        't'
    } else if c == 'U' {
        'u'
    } else if c == 'V' {
        'v'
    } else if c == 'W' {
        'w'
    } else if c == 'X' {
        'x'
    } else if c == 'Y' {
        'y'
    } else if c == 'Z' {
        'z'
    } else {
        c
    }
}

/// ASCII lowercasing, character by character.
pub open spec fn lower_of(s: Seq<char>) -> Seq<char> {
    s.map_values(|c: char| lower_char(c))
}

/// The short form of a GPU name: the common NVIDIA GeForce prefixes and
/// all spaces removed, the rest lowercased.
pub open spec fn shortened(name: Seq<char>) -> Seq<char> {
    lower_of(
        remove_all(
            remove_all(remove_all(name, "NVIDIA GeForce RTX"@), "NVIDIA GeForce GTX"@),
            " "@,
        ),
    )
}

/// Whether `pat` occurs in `s` starting at character `i`.
fn matches_at(s: &str, i: usize, pat: &str) -> (r: bool)
    requires
        i <= s@.len(),
    ensures
        r == (i + pat@.len() <= s@.len() && s@.subrange(
            i as int,
            i as int + pat@.len() as int,
        ) == pat@),
{
    let n = s.unicode_len();
    let m = pat.unicode_len();
    if m > n - i {
        return false;
    }
    let mut j: usize = 0;
    while j < m
        invariant
            j <= m,
            i + m <= n,
            n == s@.len(),
            m == pat@.len(),
            forall|k: int| 0 <= k < j ==> s@[i + k] == pat@[k],
        decreases m - j,
    {
        if s.get_char(i + j) != pat.get_char(j) {
            proof {
                let sub = s@.subrange(i as int, i as int + pat@.len() as int);
                assert(sub != pat@) by {
                    if sub == pat@ {
                        assert(sub[j as int] == s@[i + j]);
                    }
                }
            }
            return false;
        }
        j = j + 1;
    }
    proof {
        assert(s@.subrange(i as int, i as int + pat@.len() as int) =~= pat@);
    }
    true
}

/// Removes every occurrence of `pat` from `s`; see [`remove_all`].
fn remove_all_exec(s: &str, pat: &str) -> (r: String)
    requires
        pat@.len() > 0,
    ensures
        r@ == remove_all(s@, pat@),
{
    let n = s.unicode_len();
    let m = pat.unicode_len();
    let mut out = String::new();
    let mut i: usize = 0;
    proof {
        assert(s@.skip(0) =~= s@);
        assert(out@ + remove_all(s@, pat@) =~= remove_all(s@, pat@));
    }
    while i < n
        invariant
            i <= n,
            n == s@.len(),
            m == pat@.len(),
            m > 0,
            remove_all(s@, pat@) == out@ + remove_all(s@.skip(i as int), pat@),
        decreases n - i,
    {
        let ghost rest = s@.skip(i as int);
        if matches_at(s, i, pat) {
            proof {
                assert(rest.take(m as int) =~= s@.subrange(i as int, i as int + m as int));
                assert(rest.skip(m as int) =~= s@.skip(i as int + m as int));
                assert(remove_all(rest, pat@) == remove_all(s@.skip(i as int + m as int), pat@));
            }
            i = i + m;
        } else {
            let piece = s.substring_char(i, i + 1);
            proof {
                assert(rest.len() >= m ==> rest.take(m as int) != pat@) by {
                    if rest.len() >= m {
                        assert(rest.take(m as int) =~= s@.subrange(
                            i as int,
                            i as int + m as int,
                        ));
                    }
                }
                assert(rest.drop_first() =~= s@.skip(i as int + 1));
                assert(rest[0] == s@[i as int]);
                assert(remove_all(rest, pat@) == seq![s@[i as int]] + remove_all(
                    s@.skip(i as int + 1),
                    pat@,
                ));
                assert(piece@ =~= seq![s@[i as int]]);
                assert((out@ + piece@) + remove_all(s@.skip(i as int + 1), pat@) =~= out@ + (
                seq![s@[i as int]] + remove_all(s@.skip(i as int + 1), pat@)));
            }
            out.append(piece);
            i = i + 1;
        }
    }
    proof {
        assert(s@.skip(n as int) =~= Seq::<char>::empty());
        assert(out@ + remove_all(Seq::<char>::empty(), pat@) =~= out@);
    }
    out
}

/// Appends the lowercase form of the character of `s` at `i` to `out`.
fn append_lower(out: &mut String, s: &str, i: usize)
    requires
        i < s@.len(),
        i < usize::MAX,
    ensures
        final(out)@ == old(out)@ + seq![lower_char(s@[i as int])],
{
    let c = s.get_char(i);
    let lowered: &'static str = if c == 'A' {
        "a"
    } else if c == 'B' {
        "b"
    } else if c == 'C' {
        "c"
    } else if c == 'D' {
        "d"
    } else if c == 'E' {
        "e"
    } else if c == 'F' {
        "f"
    } else if c == 'G' {
        "g"
    } else if c == 'H' {
        "h"
    } else if c == 'I' {
        "i"
    } else if c == 'J' {
        "j"
    } else if c == 'K' {
        "k"
    } else if c == 'L' {
        "l"
    } else if c == 'M' {
        "m"
    } else if c == 'N' {
        "n"
    } else if c == 'O' {
        "o"
    } else if c == 'P' {
        "p"
    } else if c == 'Q' {
        "q"
    } else if c == 'R' {
        "r"
    } else if c == 'S' {
        "s"
    } else if c == 'T' {
        "t"
    } else if c == 'U' {
        "u"
    } else if c == 'V' {
        "v"
    } else if c == 'W' {
        "w"
    } else if c == 'X' {
        "x"
    } else if c == 'Y' {
        "y"
    } else if c == 'Z' {
        "z"
    } else {
        proof {
            assert(lower_char(c) == c);
        }
        let piece = s.substring_char(i, i + 1);
        proof {
            assert(piece@ =~= seq![s@[i as int]]);
        }
        out.append(piece);
        return;
    };
    proof {
        reveal_strlit("a");
        reveal_strlit("b");
        reveal_strlit("c");
        reveal_strlit("d");
        reveal_strlit("e");
        reveal_strlit("f");
        reveal_strlit("g");
        reveal_strlit("h");
        reveal_strlit("i");
        reveal_strlit("j");
        reveal_strlit("k");
        reveal_strlit("l");
        reveal_strlit("m");
        reveal_strlit("n");
        reveal_strlit("o");
        reveal_strlit("p");
        reveal_strlit("q");
        reveal_strlit("r");
        reveal_strlit("s");
        reveal_strlit("t");
        reveal_strlit("u");
        reveal_strlit("v");
        reveal_strlit("w");
        reveal_strlit("x");
        reveal_strlit("y");
        reveal_strlit("z");
        assert(lowered@ == seq![lower_char(s@[i as int])]);
    }
    out.append(lowered);
}

/// ASCII-lowercases a string; see [`lower_of`].
fn to_lower_exec(s: &str) -> (r: String)
    ensures
        r@ == lower_of(s@),
{
    let n = s.unicode_len();
    let mut out = String::new();
    let mut i: usize = 0;
    proof {
        assert(out@ =~= lower_of(s@.take(0)));
    }
    while i < n
        invariant
            i <= n,
            n == s@.len(),
            out@ == lower_of(s@.take(i as int)),
        decreases n - i,
    {
        append_lower(&mut out, s, i);
        proof {
            assert(lower_of(s@.take(i + 1)) =~= lower_of(s@.take(i as int)) + seq![
                lower_char(s@[i as int]),
            ]);
        }
        i = i + 1;
    }
    proof {
        assert(s@.take(n as int) =~= s@);
    }
    out
}

/// The short form of a GPU name: `NVIDIA GeForce RTX` and
/// `NVIDIA GeForce GTX` removed, then spaces removed, then lowercased.
pub fn shorten_gpu_name(gpu_name: &str) -> (r: String)
    ensures
        r@ == shortened(gpu_name@),
{
    proof {
        reveal_strlit("NVIDIA GeForce RTX");
        reveal_strlit("NVIDIA GeForce GTX");
        reveal_strlit(" ");
    }
    let a = remove_all_exec(gpu_name, "NVIDIA GeForce RTX");
    let b = remove_all_exec(a.as_str(), "NVIDIA GeForce GTX");
    let c = remove_all_exec(b.as_str(), " ");
    to_lower_exec(c.as_str())
}

#[verifier::external_type_specification]
#[verifier::external_body]
pub struct ExNvml(nvml_wrapper::Nvml);

#[verifier::external_type_specification]
#[verifier::external_body]
pub struct ExDevice<'a>(nvml_wrapper::Device<'a>);

#[verifier::external_type_specification]
#[verifier::external_body]
pub struct ExNvmlError(nvml_wrapper::error::NvmlError);

/// Relies on `Nvml::init`: loads and initializes the NVML library. The
/// outcome depends on the machine's driver state, so nothing is promised
/// of it; every caller handles both cases.
#[verifier::external_body]
fn nvml_init() -> Result<nvml_wrapper::Nvml, nvml_wrapper::error::NvmlError> {
    nvml_wrapper::Nvml::init()
}

/// Relies on `Nvml::device_count`: the number of compute devices. The
/// count depends on the machine, so nothing is promised of it.
#[verifier::external_body]
fn nvml_device_count(nvml: &nvml_wrapper::Nvml) -> Result<u32, nvml_wrapper::error::NvmlError> {
    nvml.device_count()
}

/// Relies on `Nvml::device_by_index`: the handle for one device. Whether
/// it succeeds depends on the machine, so nothing is promised of it.
#[verifier::external_body]
fn nvml_device_by_index<'a>(nvml: &'a nvml_wrapper::Nvml, index: u32) -> Result<
    nvml_wrapper::Device<'a>,
    nvml_wrapper::error::NvmlError,
> {
    nvml.device_by_index(index)
}

/// Relies on `Device::name`: the device's product name, an alphanumeric
/// string chosen by the driver, so nothing is promised of it.
#[verifier::external_body]
fn nvml_device_name(device: &nvml_wrapper::Device<'_>) -> Result<
    String,
    nvml_wrapper::error::NvmlError,
> {
    device.name()
}

/// Enumerates the NVIDIA GPUs the driver reports. Whatever the driver
/// answers, each returned entry carries its enumeration index and the
/// short name derived from its reported name.
pub fn get_nvidia_gpus() -> (r: Result<Vec<GpuInfo>, nvml_wrapper::error::NvmlError>)
    ensures
        r matches Ok(gpus) ==> forall|i: int|
            0 <= i < gpus@.len() ==> {
                &&& (#[trigger] gpus@[i]).index == i
                &&& gpus@[i].short_name@ == shortened(gpus@[i].gpu_name@)
            },
{
    let nvml = match nvml_init() {
        Ok(n) => n,
        Err(e) => {
            return Err(e);
        },
    };
    let num_gpu = match nvml_device_count(&nvml) {
        Ok(n) => n,
        Err(e) => {
            return Err(e);
        },
    };
    let mut gpus: Vec<GpuInfo> = Vec::new();
    let mut index: u32 = 0;
    while index < num_gpu
        invariant
            gpus@.len() == index,
            forall|i: int|
                0 <= i < gpus@.len() ==> {
                    &&& (#[trigger] gpus@[i]).index == i
                    &&& gpus@[i].short_name@ == shortened(gpus@[i].gpu_name@)
                },
        decreases num_gpu - index,
    {
        let device = match nvml_device_by_index(&nvml, index) {
            Ok(d) => d,
            Err(e) => {
                return Err(e);
            },
        };
        let gpu_name = match nvml_device_name(&device) {
            Ok(n) => n,
            Err(e) => {
                return Err(e);
            },
        };
        let short_name = shorten_gpu_name(gpu_name.as_str());
        gpus.push(GpuInfo { index, gpu_name, short_name });
        index = index + 1;
    }
    Ok(gpus)
}

} // verus!
