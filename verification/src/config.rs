use vstd::prelude::*;
use vstd::string::StringSliceAdditionalSpecFns;

verus! {

/// UDP capture configuration.
#[derive(Debug, Clone, PartialEq, Eq, Structural)]
pub struct CaptureConfig {
    /// UDP port the left-eye module streams to.
    pub left_port: u16,
    /// UDP port the right-eye module streams to.
    pub right_port: u16,
    /// Per-eye ring-buffer capacity in frames.
    pub ring_capacity: usize,
}

/// Default UDP port of the left-eye module.
pub const DEFAULT_LEFT_PORT: u16 = 5005;

/// Default UDP port of the right-eye module.
pub const DEFAULT_RIGHT_PORT: u16 = 5006;

/// Default per-eye ring-buffer capacity in frames.
pub const DEFAULT_RING_CAPACITY: usize = 4;

impl Default for CaptureConfig {
    fn default() -> (c: Self)
        ensures
            c.left_port == DEFAULT_LEFT_PORT,
            c.right_port == DEFAULT_RIGHT_PORT,
            c.ring_capacity == DEFAULT_RING_CAPACITY,
    {
        CaptureConfig {
            left_port: DEFAULT_LEFT_PORT,
            right_port: DEFAULT_RIGHT_PORT,
            ring_capacity: DEFAULT_RING_CAPACITY,
        }
    }
}


/// The byte that separates path components.
pub const SEPARATOR: u8 = 47u8;

/// `base` extended by the relative `component`: a separator goes between
/// them unless `base` is empty or already ends in one.
pub open spec fn join_path(base: Seq<u8>, component: Seq<u8>) -> Seq<u8> {
    if base.len() > 0 && base.last() != SEPARATOR {
        base.push(SEPARATOR) + component
    } else {
        base + component
    }
}

/// Directory below a home directory that holds per-user configuration.
pub open spec fn user_config_dir() -> Seq<u8> {
    ".config".spec_bytes()
}

/// Directory of this program inside the configuration directory.
pub open spec fn app_dir_name() -> Seq<u8> {
    "eye-tracker-rust".spec_bytes()
}

/// Name of the configuration file.
pub open spec fn config_file_name() -> Seq<u8> {
    "config.toml".spec_bytes()
}

/// The canonical configuration path, given the values of `XDG_CONFIG_HOME`
/// and `HOME` (`None` where a variable is unset): the configuration
/// directory is `XDG_CONFIG_HOME` where it is set, else `HOME/.config`, and
/// the file is `eye-tracker-rust/config.toml` below it.
pub open spec fn canonical_config_path(
    xdg_config_home: Option<Seq<u8>>,
    home: Option<Seq<u8>>,
) -> Option<Seq<u8>> {
    let base = match xdg_config_home {
        Some(x) => Some(x),
        None => match home {
            Some(h) => Some(join_path(h, user_config_dir())),
            None => None,
        },
    };
    match base {
        Some(b) => Some(join_path(join_path(b, app_dir_name()), config_file_name())),
        None => None,
    }
}

/// Extends `path` by the relative component `component`, as `join_path` says.
pub(crate) fn push_component(path: &mut Vec<u8>, component: &[u8])
    ensures
        final(path)@ == join_path(old(path)@, component@),
        old(path)@.len() > 0 && old(path)@.last() != SEPARATOR ==> final(path)@ == old(path)@
            + seq![SEPARATOR] + component@,
        old(path)@.len() == 0 || old(path)@.last() == SEPARATOR ==> final(path)@ == old(path)@
            + component@,
{
    let n = path.len();
    if n > 0 && path[n - 1] != SEPARATOR {
        path.push(SEPARATOR);
    }
    let ghost start = path@;
    let mut i: usize = 0;
    while i < component.len()
        invariant
            i <= component@.len(),
            path@ == start + component@.subrange(0, i as int),
            join_path(old(path)@, component@) == start + component@,
        decreases component@.len() - i,
    {
        path.push(component[i]);
        i += 1;
        assert(component@.subrange(0, i as int) == component@.subrange(0, i - 1).push(component@[i - 1]));
    }
    assert(component@.subrange(0, i as int) == component@);
}

/// The canonical configuration path for the given values of
/// `XDG_CONFIG_HOME` and `HOME`, or `None` where neither is set.
pub fn config_path_from_env(xdg_config_home: Option<Vec<u8>>, home: Option<Vec<u8>>) -> (p: Option<Vec<u8>>)
    ensures
        p.deep_view() == canonical_config_path(xdg_config_home.deep_view(), home.deep_view()),
        p is None <==> (xdg_config_home is None && home is None),
        xdg_config_home matches Some(x) ==> (x@.len() > 0 && x@.last() != SEPARATOR ==> p.deep_view()
            == Some(x@ + "/eye-tracker-rust/config.toml".spec_bytes())),
        xdg_config_home matches Some(x) ==> (x@.len() == 0 || x@.last() == SEPARATOR ==> p.deep_view()
            == Some(x@ + "eye-tracker-rust/config.toml".spec_bytes())),
        xdg_config_home is None ==> (home matches Some(h) ==> (h@.len() > 0 && h@.last() != SEPARATOR
            ==> p.deep_view() == Some(h@ + "/.config/eye-tracker-rust/config.toml".spec_bytes()))),
        xdg_config_home is None ==> (home matches Some(h) ==> (h@.len() == 0 || h@.last() == SEPARATOR
            ==> p.deep_view() == Some(h@ + ".config/eye-tracker-rust/config.toml".spec_bytes()))),
{
    proof {
        lemma_config_path_bytes(xdg_config_home.deep_view(), home.deep_view());
        if let Some(x) = &xdg_config_home {
            assert(x.deep_view() =~= x@);
        }
        if let Some(h) = &home {
            assert(h.deep_view() =~= h@);
        }
    }
    let mut base = match xdg_config_home {
        Some(x) => x,
        None => match home {
            Some(h) => {
                let mut h = h;
                push_component(&mut h, ".config".as_bytes());
                h
            },
            None => return None,
        },
    };
    push_component(&mut base, "eye-tracker-rust".as_bytes());
    push_component(&mut base, "config.toml".as_bytes());
    Some(base)
}


/// The relative path `eye-tracker-rust/config.toml` of the configuration
/// file below the configuration directory.
pub open spec fn config_file_below_dir() -> Seq<u8> {
    app_dir_name().push(SEPARATOR) + config_file_name()
}

proof fn lemma_name_bytes()
    ensures
        app_dir_name().len() == 16,
        app_dir_name().last() != SEPARATOR,
        config_file_name().len() == 11,
        user_config_dir().len() == 7,
        user_config_dir().last() != SEPARATOR,
{
    reveal_strlit("eye-tracker-rust");
    reveal_strlit("config.toml");
    reveal_strlit(".config");
    vstd::utf8::is_ascii_chars_encode_utf8("eye-tracker-rust"@);
    vstd::utf8::is_ascii_chars_encode_utf8("config.toml"@);
    vstd::utf8::is_ascii_chars_encode_utf8(".config"@);
}

proof fn lemma_suffix_bytes()
    ensures
        "eye-tracker-rust/config.toml".spec_bytes() == app_dir_name() + seq![SEPARATOR]
            + config_file_name(),
        "/eye-tracker-rust/config.toml".spec_bytes() == seq![SEPARATOR] + app_dir_name()
            + seq![SEPARATOR] + config_file_name(),
        ".config/eye-tracker-rust/config.toml".spec_bytes() == user_config_dir() + seq![SEPARATOR]
            + app_dir_name() + seq![SEPARATOR] + config_file_name(),
        "/.config/eye-tracker-rust/config.toml".spec_bytes() == seq![SEPARATOR] + user_config_dir()
            + seq![SEPARATOR] + app_dir_name() + seq![SEPARATOR] + config_file_name(),
{
    reveal_strlit("eye-tracker-rust");
    reveal_strlit("config.toml");
    reveal_strlit(".config");
    reveal_strlit("eye-tracker-rust/config.toml");
    reveal_strlit("/eye-tracker-rust/config.toml");
    reveal_strlit(".config/eye-tracker-rust/config.toml");
    reveal_strlit("/.config/eye-tracker-rust/config.toml");
    vstd::utf8::is_ascii_chars_encode_utf8("eye-tracker-rust"@);
    vstd::utf8::is_ascii_chars_encode_utf8("config.toml"@);
    vstd::utf8::is_ascii_chars_encode_utf8(".config"@);
    vstd::utf8::is_ascii_chars_encode_utf8("eye-tracker-rust/config.toml"@);
    vstd::utf8::is_ascii_chars_encode_utf8("/eye-tracker-rust/config.toml"@);
    vstd::utf8::is_ascii_chars_encode_utf8(".config/eye-tracker-rust/config.toml"@);
    vstd::utf8::is_ascii_chars_encode_utf8("/.config/eye-tracker-rust/config.toml"@);
    assert("eye-tracker-rust/config.toml".spec_bytes() =~= app_dir_name() + seq![SEPARATOR]
        + config_file_name());
    assert("/eye-tracker-rust/config.toml".spec_bytes() =~= seq![SEPARATOR] + app_dir_name()
        + seq![SEPARATOR] + config_file_name());
    assert(".config/eye-tracker-rust/config.toml".spec_bytes() =~= user_config_dir() + seq![SEPARATOR]
        + app_dir_name() + seq![SEPARATOR] + config_file_name());
    assert("/.config/eye-tracker-rust/config.toml".spec_bytes() =~= seq![SEPARATOR] + user_config_dir()
        + seq![SEPARATOR] + app_dir_name() + seq![SEPARATOR] + config_file_name());
}

/// The configuration path as bytes: the chosen directory (`XDG_CONFIG_HOME`
/// where set, else `HOME` followed by `.config`), then
/// `eye-tracker-rust/config.toml`, with exactly one `/` put before each
/// added component unless the text before it is empty or already ends in `/`.
pub proof fn lemma_config_path_bytes(xdg_config_home: Option<Seq<u8>>, home: Option<Seq<u8>>)
    ensures
        xdg_config_home matches Some(x) ==> (x.len() > 0 && x.last() != SEPARATOR
            ==> canonical_config_path(xdg_config_home, home) == Some(
            x + "/eye-tracker-rust/config.toml".spec_bytes(),
        )),
        xdg_config_home matches Some(x) ==> (x.len() == 0 || x.last() == SEPARATOR
            ==> canonical_config_path(xdg_config_home, home) == Some(
            x + "eye-tracker-rust/config.toml".spec_bytes(),
        )),
        xdg_config_home is None ==> (home matches Some(h) ==> (h.len() > 0 && h.last() != SEPARATOR
            ==> canonical_config_path(xdg_config_home, home) == Some(
            h + "/.config/eye-tracker-rust/config.toml".spec_bytes(),
        ))),
        xdg_config_home is None ==> (home matches Some(h) ==> (h.len() == 0 || h.last() == SEPARATOR
            ==> canonical_config_path(xdg_config_home, home) == Some(
            h + ".config/eye-tracker-rust/config.toml".spec_bytes(),
        ))),
        (xdg_config_home is None && home is None) ==> canonical_config_path(xdg_config_home, home)
            is None,
{
    lemma_name_bytes();
    lemma_suffix_bytes();
    let sep = seq![SEPARATOR];
    let d = app_dir_name();
    let f = config_file_name();
    let c = user_config_dir();
    match xdg_config_home {
        Some(x) => {
            let m = join_path(x, d);
            assert(m.len() > 0 && m.last() == d.last());
            if x.len() > 0 && x.last() != SEPARATOR {
                assert(join_path(m, f) =~= x + (sep + d + sep + f));
            } else {
                assert(join_path(m, f) =~= x + (d + sep + f));
            }
        },
        None => {
            if let Some(h) = home {
                let b = join_path(h, c);
                assert(b.len() > 0 && b.last() == c.last());
                let m = join_path(b, d);
                assert(m.len() > 0 && m.last() == d.last());
                if h.len() > 0 && h.last() != SEPARATOR {
                    assert(join_path(m, f) =~= h + (sep + c + sep + d + sep + f));
                } else {
                    assert(join_path(m, f) =~= h + (c + sep + d + sep + f));
                }
            }
        },
    }
}

/// Where the configuration file lies: `eye-tracker-rust/config.toml` below
/// `XDG_CONFIG_HOME` where that is set, whatever `HOME` holds; else below
/// `HOME/.config`; and nowhere when neither variable is set. Whatever the
/// directory, the path ends in `eye-tracker-rust/config.toml`.
pub proof fn lemma_config_path_location(xdg_config_home: Option<Seq<u8>>, home: Option<Seq<u8>>)
    ensures
        canonical_config_path(xdg_config_home, home) is None <==> (xdg_config_home is None
            && home is None),
        xdg_config_home matches Some(x) ==> canonical_config_path(xdg_config_home, home) == Some(
            join_path(x, config_file_below_dir()),
        ),
        xdg_config_home is None ==> (home matches Some(h) ==> canonical_config_path(
            xdg_config_home,
            home,
        ) == Some(join_path(join_path(h, user_config_dir()), config_file_below_dir()))),
        canonical_config_path(xdg_config_home, home) matches Some(p) ==> {
            &&& p.len() >= config_file_below_dir().len()
            &&& p.subrange(p.len() - config_file_below_dir().len(), p.len() as int)
                == config_file_below_dir()
        },
{
    lemma_name_bytes();
    let base = match xdg_config_home {
        Some(x) => Some(x),
        None => match home {
            Some(h) => Some(join_path(h, user_config_dir())),
            None => None,
        },
    };
    if let Some(b) = base {
        let mid = join_path(b, app_dir_name());
        let p = join_path(mid, config_file_name());
        assert(mid.len() > 0 && mid.last() == app_dir_name().last());
        assert(p == join_path(b, config_file_below_dir()));
        let k = config_file_below_dir().len();
        assert(p.subrange(p.len() - k, p.len() as int) == config_file_below_dir());
    }
}

} // verus!
