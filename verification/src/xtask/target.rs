//! The targets that binaries are built for.
use vstd::prelude::*;

use crate::text::{owned, same_text, views};

verus! {

/// A target that binaries are built for.
#[derive(Debug, PartialEq, Eq, Structural)]
pub enum Target {
    LinuxUnknownGnu,
    LinuxAarch64,
    WindowsMsvc,
    MacOSAmd64,
    Other,
}

/// The target triple of a target; `unknown-target` for any other.
pub open spec fn target_text(t: Target) -> Seq<char> {
    match t {
        Target::LinuxUnknownGnu => "x86_64-unknown-linux-gnu"@,
        Target::LinuxAarch64 => "aarch64-unknown-linux-gnu"@,
        Target::WindowsMsvc => "x86_64-pc-windows-msvc"@,
        Target::MacOSAmd64 => "x86_64-apple-darwin"@,
        Target::Other => "unknown-target"@,
    }
}

/// The target that a triple names; any triple not listed is another
/// target.
pub open spec fn target_of(triple: Seq<char>) -> Target {
    if triple == "x86_64-unknown-linux-gnu"@ {
        Target::LinuxUnknownGnu
    } else if triple == "aarch64-unknown-linux-gnu"@ {
        Target::LinuxAarch64
    } else if triple == "x86_64-pc-windows-msvc"@ {
        Target::WindowsMsvc
    } else if triple == "x86_64-apple-darwin"@ {
        Target::MacOSAmd64
    } else {
        Target::Other
    }
}

/// The triples that can be asked for, in order.
pub open spec fn possible_target_triples() -> Seq<Seq<char>> {
    seq![
        "x86_64-unknown-linux-gnu"@,
        "aarch64-unknown-linux-gnu"@,
        "x86_64-pc-windows-msvc"@,
        "x86_64-apple-darwin"@,
    ]
}

/// The triples that can be asked for.
pub fn possible_targets() -> (r: Vec<String>)
    ensures
        views(r@) == possible_target_triples(),
{
    let mut r: Vec<String> = Vec::new();
    r.push(owned("x86_64-unknown-linux-gnu"));
    r.push(owned("aarch64-unknown-linux-gnu"));
    r.push(owned("x86_64-pc-windows-msvc"));
    r.push(owned("x86_64-apple-darwin"));
    assert(views(r@) =~= possible_target_triples());
    r
}

/// The target of the machine, from its operating system, architecture and
/// C environment (as `std::env::consts` and `target_env` name them): Windows
/// on x86-64, GNU Linux on x86-64 or AArch64, and any macOS; any other
/// machine is another target.
pub open spec fn platform_target(os: Seq<char>, arch: Seq<char>, env: Seq<char>) -> Target {
    if os == "windows"@ {
        if arch == "x86_64"@ {
            Target::WindowsMsvc
        } else {
            Target::Other
        }
    } else if os == "linux"@ {
        if env == "gnu"@ && arch == "x86_64"@ {
            Target::LinuxUnknownGnu
        } else if env == "gnu"@ && arch == "aarch64"@ {
            Target::LinuxAarch64
        } else {
            Target::Other
        }
    } else if os == "macos"@ {
        Target::MacOSAmd64
    } else {
        Target::Other
    }
}

impl Target {
    /// The target of the machine, from its operating system, architecture
    /// and C environment.
    pub fn for_platform(os: &str, arch: &str, env: &str) -> (r: Target)
        ensures
            r == platform_target(os@, arch@, env@),
    {
        if same_text(os, "windows") {
            if same_text(arch, "x86_64") {
                Target::WindowsMsvc
            } else {
                Target::Other
            }
        } else if same_text(os, "linux") {
            if same_text(env, "gnu") && same_text(arch, "x86_64") {
                Target::LinuxUnknownGnu
            } else if same_text(env, "gnu") && same_text(arch, "aarch64") {
                Target::LinuxAarch64
            } else {
                Target::Other
            }
        } else if same_text(os, "macos") {
            Target::MacOSAmd64
        } else {
            Target::Other
        }
    }

    /// The target that a triple names; any other triple is another target.
    pub fn from_str(input: &str) -> (r: Target)
        ensures
            r == target_of(input@),
    {
        if same_text(input, "x86_64-unknown-linux-gnu") {
            Target::LinuxUnknownGnu
        } else if same_text(input, "aarch64-unknown-linux-gnu") {
            Target::LinuxAarch64
        } else if same_text(input, "x86_64-pc-windows-msvc") {
            Target::WindowsMsvc
        } else if same_text(input, "x86_64-apple-darwin") {
            Target::MacOSAmd64
        } else {
            Target::Other
        }
    }

    /// The target's triple, or `unknown-target`.
    pub fn to_text(&self) -> (r: String)
        ensures
            r@ == target_text(*self),
    {
        match self {
            Target::LinuxUnknownGnu => owned("x86_64-unknown-linux-gnu"),
            Target::LinuxAarch64 => owned("aarch64-unknown-linux-gnu"),
            Target::WindowsMsvc => owned("x86_64-pc-windows-msvc"),
            Target::MacOSAmd64 => owned("x86_64-apple-darwin"),
            Target::Other => owned("unknown-target"),
        }
    }

    /// A copy of the target.
    pub fn duplicate(&self) -> (r: Target)
        ensures
            r == *self,
    {
        match self {
            Target::LinuxUnknownGnu => Target::LinuxUnknownGnu,
            Target::LinuxAarch64 => Target::LinuxAarch64,
            Target::WindowsMsvc => Target::WindowsMsvc,
            Target::MacOSAmd64 => Target::MacOSAmd64,
            Target::Other => Target::Other,
        }
    }

    /// Whether this is another target than the listed ones.
    pub fn is_other(&self) -> (r: bool)
        ensures
            r == (*self == Target::Other),
    {
        *self == Target::Other
    }

    /// Whether this is the macOS target.
    pub fn is_macos(&self) -> (r: bool)
        ensures
            r == (*self == Target::MacOSAmd64),
    {
        *self == Target::MacOSAmd64
    }

    /// Whether this is a Linux target.
    pub fn is_linux(&self) -> (r: bool)
        ensures
            r == (*self == Target::LinuxAarch64 || *self == Target::LinuxUnknownGnu),
    {
        *self == Target::LinuxAarch64 || *self == Target::LinuxUnknownGnu
    }

    /// Whether this is the Windows target.
    pub fn is_windows(&self) -> (r: bool)
        ensures
            r == (*self == Target::WindowsMsvc),
    {
        *self == Target::WindowsMsvc
    }

    /// The arguments that select the target for cargo: `--target` and the
    /// triple, or none for another target.
    pub fn get_cargo_args(&self) -> (r: Vec<String>)
        ensures
            views(r@) == if *self == Target::Other {
                Seq::<Seq<char>>::empty()
            } else {
                seq!["--target"@, target_text(*self)]
            },
    {
        let mut target_args: Vec<String> = Vec::new();
        if !self.is_other() {
            target_args.push(owned("--target"));
            target_args.push(self.to_text());
        }
        proof {
            if *self == Target::Other {
                assert(views(target_args@) =~= Seq::<Seq<char>>::empty());
            } else {
                assert(views(target_args@) =~= seq!["--target"@, target_text(*self)]);
            }
        }
        target_args
    }

    /// The environment that builds for the target run with: on Windows the
    /// C runtime is linked statically; nothing for the other targets.
    pub fn get_env(&self) -> (r: Vec<(String, String)>)
        ensures
            r@.len() == if *self == Target::WindowsMsvc {
                1int
            } else {
                0int
            },
            *self == Target::WindowsMsvc ==> r@[0].0@ == "RUSTFLAGS"@ && r@[0].1@
                == "-Ctarget-feature=+crt-static"@,
    {
        let mut env: Vec<(String, String)> = Vec::new();
        if self.is_windows() {
            env.push((owned("RUSTFLAGS"), owned("-Ctarget-feature=+crt-static")));
        }
        env
    }
}

/// Reading a target's own triple gives the target back, for each listed
/// target.
pub proof fn law_target_text_roundtrip(t: Target)
    requires
        t != Target::Other,
    ensures
        target_of(target_text(t)) == t,
{
    reveal_strlit("x86_64-unknown-linux-gnu");
    reveal_strlit("aarch64-unknown-linux-gnu");
    reveal_strlit("x86_64-pc-windows-msvc");
    reveal_strlit("x86_64-apple-darwin");
    let linux = "x86_64-unknown-linux-gnu"@;
    let arm = "aarch64-unknown-linux-gnu"@;
    let windows = "x86_64-pc-windows-msvc"@;
    let mac = "x86_64-apple-darwin"@;
    assert(arm[0] != linux[0]);
    assert(windows[7] != linux[7]);
    assert(windows[0] != arm[0]);
    assert(mac[7] != linux[7]);
    assert(mac[0] != arm[0]);
    assert(mac[7] != windows[7]);
}

} // verus!
