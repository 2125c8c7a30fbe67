//! Configuration store: the settings the supervisor is constructed from and
//! the byte format they are persisted in.
//!
//! The stored file is line-based and human-editable: a `startup=` line whose
//! value is `0` or `1`, followed, when a target executable is configured, by a
//! `path=` line holding the raw path bytes.  Reading never fails the caller: a
//! missing or malformed file yields the default configuration.  The embedding
//! performs the actual file reads and writes and hands the bytes through
//! [`parse_config`] and [`render_config`].

use vstd::prelude::*;

verus! {

/// Settings persisted for the supervisor: the target executable (raw path
/// bytes, absent when no target is configured) and whether that target is
/// launched as soon as the addon loads.
#[derive(Clone, Debug)]
pub struct Configuration {
    pub executable_path: Option<Vec<u8>>,
    pub launch_on_startup: bool,
}

/// Mathematical model of a [`Configuration`].
#[verifier::ext_equal]
pub struct ConfigView {
    pub path: Option<Seq<u8>>,
    pub startup: bool,
}

impl View for Configuration {
    type V = ConfigView;

    open spec fn view(&self) -> ConfigView {
        ConfigView {
            path: match self.executable_path {
                Option::Some(p) => Option::Some(p@),
                Option::None => Option::None,
            },
            startup: self.launch_on_startup,
        }
    }
}

impl ConfigView {
    /// A configured target path is nonempty and fits on one line of the
    /// stored file (it contains no line feed).
    pub open spec fn wf(self) -> bool {
        self.path matches Some(p) ==> {
            &&& p.len() >= 1
            &&& forall|i: int| 0 <= i < p.len() ==> p[i] != 10u8
        }
    }
}

/// The configuration used when nothing valid is stored: no target, no
/// launch on startup.
pub open spec fn default_view() -> ConfigView {
    ConfigView { path: Option::None, startup: false }
}

/// Key of the stored line holding the launch-on-startup flag: the ASCII
/// bytes of `startup=`.
pub open spec fn startup_key() -> Seq<u8> {
    seq![115u8, 116u8, 97u8, 114u8, 116u8, 117u8, 112u8, 61u8]
}

/// Key of the stored line holding the target executable path: the ASCII
/// bytes of `path=`.
pub open spec fn path_key() -> Seq<u8> {
    seq![112u8, 97u8, 116u8, 104u8, 61u8]
}

/// The stored byte for the launch-on-startup flag: ASCII `1` or `0`.
pub open spec fn flag_byte(startup: bool) -> u8 {
    if startup { 49u8 } else { 48u8 }
}

/// First stored line: `startup=` followed by the flag byte and a line feed.
pub open spec fn config_header(v: ConfigView) -> Seq<u8> {
    startup_key().push(flag_byte(v.startup)).push(10u8)
}

/// The exact bytes a configuration is stored as.
pub open spec fn config_bytes(v: ConfigView) -> Seq<u8> {
    match v.path {
        Option::Some(p) => config_header(v) + path_key() + p + seq![10u8],
        Option::None => config_header(v),
    }
}

/// The stored bytes begin with a well-formed `startup=` line.
pub open spec fn header_ok(s: Seq<u8>) -> bool {
    &&& s.len() >= 10
    &&& s.subrange(0, 8) == startup_key()
    &&& (s[8] == 48u8 || s[8] == 49u8)
    &&& s[9] == 10u8
}

/// A stored path value is nonempty and contains no line feed.
pub open spec fn path_ok(p: Seq<u8>) -> bool {
    &&& p.len() >= 1
    &&& forall|i: int| 0 <= i < p.len() ==> p[i] != 10u8
}

/// What loading stored bytes yields: the configuration they spell when they
/// are exactly a stored image, and the default configuration otherwise.
pub open spec fn parsed(s: Seq<u8>) -> ConfigView {
    if !header_ok(s) {
        default_view()
    } else {
        let startup = s[8] == 49u8;
        if s.len() == 10 {
            ConfigView { path: Option::None, startup }
        } else if s.len() >= 17 && s.subrange(10, 15) == path_key() && s[s.len() - 1] == 10u8
            && path_ok(s.subrange(15, s.len() - 1)) {
            ConfigView { path: Option::Some(s.subrange(15, s.len() - 1)), startup }
        } else {
            default_view()
        }
    }
}

/// Errors of the configuration store.  Reading degrades to defaults instead
/// of failing, so only writing reports an error to the caller.
#[derive(Clone, Copy, Debug, PartialEq, Eq, Structural)]
pub enum ConfigError {
    ReadFailed,
    WriteFailed,
}

impl Default for Configuration {
    /// The validated default: no target configured, no launch on startup.
    fn default() -> (c: Configuration)
        ensures
            c@ == default_view(),
            c@.wf(),
    {
        Configuration { executable_path: Option::None, launch_on_startup: false }
    }
}

fn startup_key_byte(i: usize) -> (b: u8)
    requires
        i < 8,
    ensures
        b == startup_key()[i as int],
{
    if i == 0 { 115u8 }
    else if i == 1 { 116u8 }
    else if i == 2 { 97u8 }
    else if i == 3 { 114u8 }
    else if i == 4 { 116u8 }
    else if i == 5 { 117u8 }
    else if i == 6 { 112u8 }
    else { 61u8 }
}

fn path_key_byte(i: usize) -> (b: u8)
    requires
        i < 5,
    ensures
        b == path_key()[i as int],
{
    if i == 0 { 112u8 }
    else if i == 1 { 97u8 }
    else if i == 2 { 116u8 }
    else { if i == 3 { 104u8 } else { 61u8 } }
}

/// Renders a configuration as the exact bytes it is stored as.
pub fn render_config(cfg: &Configuration) -> (r: Vec<u8>)
    requires
        cfg@.wf(),
    ensures
        r@ == config_bytes(cfg@),
{
    let mut out: Vec<u8> = Vec::new();
    let mut i: usize = 0;
    while i < 8
        invariant
            i <= 8,
            out@ == startup_key().subrange(0, i as int),
        decreases 8 - i,
    {
        out.push(startup_key_byte(i));
        i = i + 1;
        proof {
            assert(out@ =~= startup_key().subrange(0, i as int));
        }
    }
    assert(out@ =~= startup_key());
    if cfg.launch_on_startup {
        out.push(49u8);
    } else {
        out.push(48u8);
    }
    out.push(10u8);
    assert(out@ =~= config_header(cfg@));
    match &cfg.executable_path {
        Option::Some(p) => {
            assert(cfg@.path == Option::Some(p@));
            let mut k: usize = 0;
            while k < 5
                invariant
                    k <= 5,
                    out@ == config_header(cfg@) + path_key().subrange(0, k as int),
                decreases 5 - k,
            {
                out.push(path_key_byte(k));
                k = k + 1;
                proof {
                    assert(out@ =~= config_header(cfg@) + path_key().subrange(0, k as int));
                }
            }
            assert(out@ =~= config_header(cfg@) + path_key());
            let mut j: usize = 0;
            while j < p.len()
                invariant
                    j <= p.len(),
                    cfg@.path == Option::Some(p@),
                    out@ == config_header(cfg@) + path_key() + p@.subrange(0, j as int),
                decreases p.len() - j,
            {
                out.push(p[j]);
                j = j + 1;
                proof {
                    assert(out@ =~= config_header(cfg@) + path_key() + p@.subrange(0, j as int));
                }
            }
            assert(out@ =~= config_header(cfg@) + path_key() + p@);
            out.push(10u8);
            assert(out@ =~= config_bytes(cfg@));
        }
        Option::None => {
            assert(out@ =~= config_bytes(cfg@));
        }
    }
    out
}

/// Reads a configuration back from stored bytes.  Bytes that are not exactly
/// a stored image yield the default configuration; this function never fails
/// the caller.
pub fn parse_config(bytes: &Vec<u8>) -> (r: Configuration)
    ensures
        r@ == parsed(bytes@),
        r@.wf(),
{
    let n: usize = bytes.len();
    if n < 10 {
        assert(!header_ok(bytes@));
        return Configuration::default();
    }
    let mut i: usize = 0;
    while i < 8
        invariant
            i <= 8,
            n == bytes@.len(),
            n >= 10,
            forall|j: int| 0 <= j < i ==> bytes@[j] == startup_key()[j],
        decreases 8 - i,
    {
        if bytes[i] != startup_key_byte(i) {
            proof {
                assert(bytes@.subrange(0, 8)[i as int] != startup_key()[i as int]);
                assert(!header_ok(bytes@));
            }
            return Configuration::default();
        }
        i = i + 1;
    }
    assert(bytes@.subrange(0, 8) =~= startup_key());
    let fb: u8 = bytes[8];
    if fb != 48 && fb != 49 {
        assert(!header_ok(bytes@));
        return Configuration::default();
    }
    if bytes[9] != 10 {
        assert(!header_ok(bytes@));
        return Configuration::default();
    }
    let startup: bool = fb == 49;
    assert(header_ok(bytes@));
    if n == 10 {
        let r = Configuration { executable_path: Option::None, launch_on_startup: startup };
        assert(r@ =~= parsed(bytes@));
        return r;
    }
    if n < 17 {
        assert(parsed(bytes@) == default_view());
        return Configuration::default();
    }
    let mut k: usize = 0;
    while k < 5
        invariant
            k <= 5,
            n == bytes@.len(),
            n >= 17,
            header_ok(bytes@),
            startup == (bytes@[8] == 49u8),
            forall|j: int| 0 <= j < k ==> bytes@[10 + j] == path_key()[j],
        decreases 5 - k,
    {
        if bytes[10 + k] != path_key_byte(k) {
            proof {
                assert(bytes@.subrange(10, 15)[k as int] != path_key()[k as int]);
                assert(parsed(bytes@) == default_view());
            }
            return Configuration::default();
        }
        k = k + 1;
    }
    assert(bytes@.subrange(10, 15) =~= path_key());
    if bytes[n - 1] != 10 {
        assert(parsed(bytes@) == default_view());
        return Configuration::default();
    }
    let mut p: Vec<u8> = Vec::new();
    let mut idx: usize = 15;
    while idx < n - 1
        invariant
            15 <= idx <= n - 1,
            n == bytes@.len(),
            n >= 17,
            header_ok(bytes@),
            bytes@.subrange(10, 15) == path_key(),
            bytes@[n - 1] == 10u8,
            startup == (bytes@[8] == 49u8),
            p@ == bytes@.subrange(15, idx as int),
            forall|j: int| 0 <= j < p@.len() ==> p@[j] != 10u8,
        decreases n - 1 - idx,
    {
        let b: u8 = bytes[idx];
        if b == 10 {
            proof {
                assert(bytes@.subrange(15, n - 1)[idx - 15] == 10u8);
                assert(!path_ok(bytes@.subrange(15, n - 1)));
                assert(parsed(bytes@) == default_view());
            }
            return Configuration::default();
        }
        p.push(b);
        idx = idx + 1;
        proof {
            assert(p@ =~= bytes@.subrange(15, idx as int));
        }
    }
    assert(p@ =~= bytes@.subrange(15, n - 1));
    proof {
        assert forall|j: int| 0 <= j < bytes@.subrange(15, n - 1).len()
            implies #[trigger] bytes@.subrange(15, n - 1)[j] != 10u8 by {
            assert(bytes@.subrange(15, n - 1)[j] == p@[j]);
        }
        assert(path_ok(bytes@.subrange(15, n - 1)));
    }
    let r = Configuration { executable_path: Option::Some(p), launch_on_startup: startup };
    assert(r@ =~= parsed(bytes@));
    r
}

/// Saving and loading round-trip: the bytes a well-formed configuration is
/// stored as read back as exactly that configuration.
pub proof fn lemma_config_round_trip(v: ConfigView)
    requires
        v.wf(),
    ensures
        parsed(config_bytes(v)) == v,
{
    let s = config_bytes(v);
    match v.path {
        Option::None => {
            assert(s.len() == 10);
            assert(s.subrange(0, 8) =~= startup_key());
            assert(s[8] == flag_byte(v.startup));
            assert(s[9] == 10u8);
            assert(header_ok(s));
            assert(parsed(s) =~= v);
        }
        Option::Some(p) => {
            assert(s.len() == 16 + p.len());
            assert(forall|i: int| 0 <= i < 10 ==> s[i] == config_header(v)[i]);
            assert(s.subrange(0, 8) =~= startup_key());
            assert(s[8] == flag_byte(v.startup));
            assert(s[9] == 10u8);
            assert(header_ok(s));
            assert(s.subrange(10, 15) =~= path_key());
            assert(s[s.len() - 1] == 10u8);
            assert(s.subrange(15, s.len() - 1) =~= p);
            assert(path_ok(s.subrange(15, s.len() - 1)));
            assert(parsed(s) =~= v);
        }
    }
}

} // verus!
