//! The init script that the guest runs first, and the agent configuration.
use vstd::prelude::*;

use super::types::AgentConfig;
use crate::oci::{words, OciImageConfig};
use crate::text::{path_join, join_path, push_char, push_str, replace_all, replace_str, to_owned_string};

verus! {

/// Whether std classifies `c` as alphabetic or numeric in Unicode.
pub uninterp spec fn unicode_alphanumeric(c: char) -> bool;

/// std's `char::is_alphanumeric`.
///
/// Its result is named, not written out: it follows the Unicode
/// `Alphabetic` and `Numeric` properties. Only what it gives on ASCII, where
/// exactly the letters and digits qualify, is stated.
#[verifier::external_body]
fn char_is_alphanumeric(c: char) -> (r: bool)
    ensures
        r == unicode_alphanumeric(c),
        (c as u32) < 128 ==> (r <==> (('a' <= c && c <= 'z') || ('A' <= c && c <= 'Z') || ('0' <= c && c <= '9'))),
{
    c.is_alphanumeric()
}

/// A letter or digit in the sense of `char::is_alphanumeric`: on ASCII the
/// Latin letters and the decimal digits, elsewhere the Unicode classes.
pub open spec fn alphanumeric(c: char) -> bool {
    if (c as u32) < 128 {
        ('a' <= c && c <= 'z') || ('A' <= c && c <= 'Z') || ('0' <= c && c <= '9')
    } else {
        unicode_alphanumeric(c)
    }
}

/// A character that needs no quoting in a shell word.
pub open spec fn shell_safe(c: char) -> bool {
    alphanumeric(c) || c == '_' || c == '-' || c == '.' || c == '/' || c == ':'
}

pub open spec fn all_shell_safe(s: Seq<char>) -> bool {
    forall|i: int| 0 <= i < s.len() ==> #[trigger] shell_safe(s[i])
}

/// A word as the shell must see it: unchanged when every character is safe,
/// otherwise single-quoted with each quote written `'\''`.
pub open spec fn shell_escaped(s: Seq<char>) -> Seq<char> {
    if all_shell_safe(s) {
        s
    } else {
        seq!['\''] + replace_all(s, seq!['\''], "'\\''"@) + seq!['\'']
    }
}

pub fn shell_escape(s: &str) -> (r: String)
    ensures
        r@ == shell_escaped(s@),
{
    let n = s.unicode_len();
    let mut i: usize = 0;
    let mut safe = true;
    while i < n
        invariant
            n == s@.len(),
            i <= n,
            safe == forall|j: int| 0 <= j < i ==> #[trigger] shell_safe(s@[j]),
        decreases n - i,
    {
        let c = s.get_char(i);
        let ok = char_is_alphanumeric(c) || c == '_' || c == '-' || c == '.' || c == '/' || c == ':';
        assert(ok == shell_safe(s@[i as int]));
        safe = safe && ok;
        i = i + 1;
    }
    if safe {
        return to_owned_string(s);
    }
    proof {
        reveal_strlit("'");
    }
    let mut r = to_owned_string("'");
    let body = replace_str(s, "'", "'\\''");
    push_str(&mut r, body.as_str());
    push_char(&mut r, '\'');
    assert("'"@ =~= seq!['\'']);
    r
}

/// Position of the first `=` in `e`, or its length when there is none.
pub open spec fn eq_pos(e: Seq<char>) -> nat
    decreases e.len(),
{
    if e.len() == 0 {
        0
    } else if e[0] == '=' {
        0
    } else {
        1 + eq_pos(e.drop_first())
    }
}

/// `export KEY=VALUE` for an environment entry split at its first `=`;
/// nothing for an entry without `=`.
pub open spec fn env_line(e: Seq<char>) -> Seq<char> {
    let p = eq_pos(e) as int;
    if p < e.len() {
        "export "@ + shell_escaped(e.take(p)) + "="@ + shell_escaped(e.skip(p + 1)) + "\n"@
    } else {
        Seq::empty()
    }
}

pub open spec fn env_lines(envs: Seq<String>) -> Seq<char>
    decreases envs.len(),
{
    if envs.len() == 0 {
        Seq::empty()
    } else {
        env_lines(envs.drop_last()) + env_line(envs.last()@)
    }
}

/// The escaped words joined by single spaces.
pub open spec fn escaped_words(ws: Seq<String>) -> Seq<char>
    decreases ws.len(),
{
    if ws.len() == 0 {
        Seq::empty()
    } else if ws.len() == 1 {
        shell_escaped(ws[0]@)
    } else {
        escaped_words(ws.drop_last()) + " "@ + shell_escaped(ws.last()@)
    }
}

/// Mount the pseudo filesystems and bring up loopback.
pub open spec fn script_prologue() -> Seq<char> {
    "#!/bin/sh\n"@ + "mount -t proc proc /proc 2>/dev/null || true\n"@
        + "mount -t sysfs sys /sys 2>/dev/null || true\n"@
        + "mount -t devtmpfs dev /dev 2>/dev/null || true\n"@ + "ip link set lo up 2>/dev/null || true\n"@
}

/// The guest init script for an image: prologue, exported environment,
/// working directory, the agent started in the background, then the
/// workload `exec`ed (a shell when the image names no command).
pub open spec fn init_script(config: OciImageConfig) -> Seq<char> {
    let full = words(config.entrypoint) + words(config.cmd);
    script_prologue() + env_lines(words(config.env)) + match config.working_dir {
        Some(w) => "cd "@ + shell_escaped(w@) + "\n"@,
        None => Seq::empty(),
    } + "/sbin/vyoma-agent-vm &\n"@ + if full.len() == 0 {
        "exec /bin/sh\n"@
    } else {
        "exec "@ + escaped_words(full) + "\n"@
    }
}

proof fn lemma_eq_pos_prefix(e: Seq<char>, i: int)
    requires
        0 <= i <= e.len(),
        forall|j: int| 0 <= j < i ==> #[trigger] e[j] != '=',
    ensures
        eq_pos(e) >= i,
        i < e.len() && e[i] == '=' ==> eq_pos(e) == i,
        i == e.len() ==> eq_pos(e) == e.len(),
    decreases i,
{
    if i > 0 {
        let t = e.drop_first();
        assert forall|j: int| 0 <= j < i - 1 implies #[trigger] t[j] != '=' by {
            assert(t[j] == e[j + 1]);
        }
        lemma_eq_pos_prefix(t, i - 1);
    } else if e.len() == 0 {
    }
}

fn env_export(e: &str) -> (r: String)
    ensures
        r@ == env_line(e@),
{
    let n = e.unicode_len();
    let mut i: usize = 0;
    while i < n && e.get_char(i) != '='
        invariant
            n == e@.len(),
            i <= n,
            forall|j: int| 0 <= j < i ==> #[trigger] e@[j] != '=',
        decreases n - i,
    {
        i = i + 1;
    }
    proof {
        lemma_eq_pos_prefix(e@, i as int);
    }
    if i == n {
        return String::new();
    }
    let key = e.substring_char(0, i);
    let value = e.substring_char(i + 1, n);
    let mut r = to_owned_string("export ");
    let k = shell_escape(key);
    push_str(&mut r, k.as_str());
    push_str(&mut r, "=");
    let v = shell_escape(value);
    push_str(&mut r, v.as_str());
    push_str(&mut r, "\n");
    assert(key@ =~= e@.take(i as int));
    assert(value@ =~= e@.skip(i + 1));
    r
}

/// Writes the guest init script for an image.
pub fn generate_init_script(config: &OciImageConfig) -> (r: String)
    ensures
        r@ == init_script(*config),
{
    let mut script = to_owned_string("#!/bin/sh\n");
    push_str(&mut script, "mount -t proc proc /proc 2>/dev/null || true\n");
    push_str(&mut script, "mount -t sysfs sys /sys 2>/dev/null || true\n");
    push_str(&mut script, "mount -t devtmpfs dev /dev 2>/dev/null || true\n");
    push_str(&mut script, "ip link set lo up 2>/dev/null || true\n");
    assert(script@ =~= script_prologue());
    let ghost base = script@;
    match &config.env {
        Some(envs) => {
            let mut i: usize = 0;
            while i < envs.len()
                invariant
                    i <= envs@.len(),
                    script@ == base + env_lines(envs@.take(i as int)),
                decreases envs.len() - i,
            {
                let line = env_export(envs[i].as_str());
                push_str(&mut script, line.as_str());
                assert(envs@.take(i + 1).drop_last() =~= envs@.take(i as int));
                assert(script@ =~= base + env_lines(envs@.take(i + 1)));
                i = i + 1;
            }
            assert(envs@.take(envs@.len() as int) =~= envs@);
        },
        None => {
            assert(script@ =~= base + env_lines(Seq::<String>::empty()));
        },
    }
    let ghost with_env = script@;
    match &config.working_dir {
        Some(w) => {
            push_str(&mut script, "cd ");
            let ew = shell_escape(w.as_str());
            push_str(&mut script, ew.as_str());
            push_str(&mut script, "\n");
        },
        None => {},
    }
    let full = config.full_command();
    push_str(&mut script, "/sbin/vyoma-agent-vm &\n");
    let ghost before_exec = script@;
    if full.len() == 0 {
        push_str(&mut script, "exec /bin/sh\n");
    } else {
        push_str(&mut script, "exec ");
        let mut i: usize = 0;
        let ghost start = script@;
        while i < full.len()
            invariant
                i <= full@.len(),
                script@ == start + escaped_words(full@.take(i as int)),
            decreases full.len() - i,
        {
            if i > 0 {
                push_str(&mut script, " ");
            }
            let w = shell_escape(full[i].as_str());
            push_str(&mut script, w.as_str());
            assert(full@.take(i + 1).drop_last() =~= full@.take(i as int));
            proof {
                if i == 0 {
                    assert(script@ =~= start + escaped_words(full@.take(1)));
                } else {
                    assert(script@ =~= start + escaped_words(full@.take(i + 1)));
                }
            }
            i = i + 1;
        }
        assert(full@.take(full@.len() as int) =~= full@);
        push_str(&mut script, "\n");
    }
    assert(script@ =~= init_script(*config));
    script
}

/// The agent configuration for a VM whose files live in `vm_dir`: the
/// initramfs built there, booting `/sbin/init` in `/` with no extra
/// environment.
pub fn agent_config_for(vm_dir: &str) -> (c: AgentConfig)
    ensures
        c.initramfs_path is Some,
        c.initramfs_path->0@ == join_path(vm_dir@, "initramfs.cpio.gz"@),
        c.init_script_path@.len() == 0,
        c.cmd@.len() == 1,
        c.cmd@[0]@ == "/sbin/init"@,
        c.workdir@ == "/"@,
        c.envs@.len() == 0,
{
    let mut cmd: Vec<String> = Vec::new();
    cmd.push(to_owned_string("/sbin/init"));
    AgentConfig {
        initramfs_path: Some(path_join(vm_dir, "initramfs.cpio.gz")),
        init_script_path: String::new(),
        cmd,
        workdir: to_owned_string("/"),
        envs: Vec::new(),
    }
}

} // verus!
