//! Which audio sessions the mixer lists and the name it shows for each.
//!
//! The caller reads the raw facts of a session from the system (its process
//! id, whether it is the system-sounds session, its display name, the text of
//! an indirect resource string, the owning process's name) and these
//! functions decide what is listed and what name is shown.

use vstd::prelude::*;
use crate::text::{
    append_decimal, decimal, lemma_decimal_injective, lemma_trim_all_nul, lemma_trim_nul_ends,
    lemma_trim_nul_window, nul_trimmed_window, trim_nul, trim_nul_text,
};

verus! {

/// Whether a session is listed: sessions without an owning process
/// (process id 0) are skipped unless they are the system-sounds session.
pub open spec fn listed(pid: u32, is_system_sounds: bool) -> bool {
    pid != 0 || is_system_sounds
}

/// Decides whether a session appears in the listing.
pub fn is_listed_session(pid: u32, is_system_sounds: bool) -> (shown: bool)
    ensures
        shown == listed(pid, is_system_sounds),
{
    !(pid == 0 && !is_system_sounds)
}

/// Whether a session is named from its own display name (system sounds, or
/// no owning process) rather than from its owning process.
pub fn is_named_by_display_name(pid: u32, is_system_sounds: bool) -> (by_display: bool)
    ensures
        by_display == (is_system_sounds || pid == 0),
{
    is_system_sounds || pid == 0
}

/// The indirect resource string that names the system sounds when a session
/// reports no display name.
pub open spec fn default_system_sounds_resource() -> Seq<char> {
    "@%SystemRoot%\\System32\\AudioSrv.Dll,-202"@
}

/// The display name that is used for a session named by display name:
/// the session's own name when it has a non-empty one, else the system-sounds
/// resource string.
pub open spec fn effective_display_name(display_name: Option<Seq<char>>) -> Seq<char> {
    match display_name {
        Some(name) => if name.len() > 0 {
            name
        } else {
            default_system_sounds_resource()
        },
        None => default_system_sounds_resource(),
    }
}

/// The display name to use for a session; `display_name` is `None` when the
/// session's display name could not be decoded.
pub fn display_name_or_default(display_name: Option<String>) -> (name: String)
    ensures
        name@ == effective_display_name(
            match display_name {
                Some(s) => Some(s@),
                None => None,
            },
        ),
{
    match display_name {
        Some(name) => {
            if name.as_str().is_empty() {
                String::from_str("@%SystemRoot%\\System32\\AudioSrv.Dll,-202")
            } else {
                name
            }
        },
        None => String::from_str("@%SystemRoot%\\System32\\AudioSrv.Dll,-202"),
    }
}

/// Whether a display name refers to an indirect resource string (it starts with '@').
pub open spec fn indirect(name: Seq<char>) -> bool {
    name.len() > 0 && name[0] == '@'
}

/// Decides whether a display name has to be loaded as an indirect resource string.
pub fn is_indirect_resource(name: &str) -> (res: bool)
    ensures
        res == indirect(name@),
{
    name.unicode_len() > 0 && name.get_char(0) == '@'
}

/// Lossy UTF-16 decoding: a unit outside the surrogate range is the
/// character with its value; a high surrogate followed by a low one is the
/// character they encode together; any other surrogate becomes U+FFFD and
/// decoding goes on with the unit after it.
pub open spec fn utf16_lossy(units: Seq<u16>) -> Seq<char>
    decreases units.len(),
{
    if units.len() == 0 {
        seq![]
    } else {
        let u = units[0];
        if u < 0xD800 || u > 0xDFFF {
            seq![u as char] + utf16_lossy(units.skip(1))
        } else if u <= 0xDBFF && units.len() >= 2 && 0xDC00 <= units[1] <= 0xDFFF {
            seq![(0x10000 + (u - 0xD800) * 0x400 + (units[1] - 0xDC00)) as char] + utf16_lossy(
                units.skip(2),
            )
        } else {
            seq!['\u{FFFD}'] + utf16_lossy(units.skip(1))
        }
    }
}

/// Units that are all zero decode to as many NUL characters.
pub proof fn lemma_utf16_zeros(units: Seq<u16>)
    requires
        forall|i: int| 0 <= i < units.len() ==> units[i] == 0,
    ensures
        forall|i: int| 0 <= i < utf16_lossy(units).len() ==> #[trigger] utf16_lossy(units)[i] == '\0',
    decreases units.len(),
{
    if units.len() > 0 {
        let rest = units.skip(1);
        assert(forall|i: int| 0 <= i < rest.len() ==> rest[i] == units[i + 1]);
        lemma_utf16_zeros(rest);
        assert((0u16 as char) == '\0');
        assert forall|i: int| 0 <= i < utf16_lossy(units).len() implies #[trigger] utf16_lossy(
            units,
        )[i] == '\0' by {
            if i > 0 {
                assert(utf16_lossy(units)[i] == utf16_lossy(rest)[i - 1]);
            }
        }
    }
}

/// Decodes UTF-16 code units with std's `String::from_utf16_lossy`, which
/// replaces ill-formed surrogates by U+FFFD (`char::decode_utf16` with the
/// replacement character).
/// Claimed: the text is `utf16_lossy` of `units`.
#[verifier::external_body]
fn decode_utf16_lossy(units: &[u16]) -> (decoded: String)
    ensures
        decoded@ == utf16_lossy(units@),
{
    String::from_utf16_lossy(units)
}

/// The name shown for the system sounds when its resource string yields no text.
pub open spec fn system_sounds_label() -> Seq<char> {
    "系统声音"@
}

/// The name shown for a session whose indirect resource string decoded to `decoded`.
pub open spec fn resource_name(decoded: Seq<char>) -> Seq<char> {
    if trim_nul(decoded).len() == 0 {
        system_sounds_label()
    } else {
        trim_nul(decoded)
    }
}

/// The name shown for a session whose indirect resource string decoded to
/// `decoded`: the text without NUL padding, or the system-sounds label when
/// nothing else remains.
pub fn resource_name_from_text(decoded: &str) -> (name: String)
    ensures
        name@ == resource_name(decoded@),
{
    let clean = trim_nul_text(decoded);
    if clean.as_str().is_empty() {
        String::from_str("系统声音")
    } else {
        clean
    }
}

/// The name shown for a session from the buffer that its indirect resource
/// string was loaded into (UTF-16, NUL padded); a buffer left all zero, as
/// when loading failed, gives the system-sounds label.
pub fn localized_resource_name(buffer: &[u16]) -> (name: String)
    ensures
        name@ == resource_name(utf16_lossy(buffer@)),
        (forall|i: int| 0 <= i < buffer@.len() ==> buffer@[i] == 0) ==> name@
            == system_sounds_label(),
{
    let decoded = decode_utf16_lossy(buffer);
    proof {
        if forall|i: int| 0 <= i < buffer@.len() ==> buffer@[i] == 0 {
            lemma_utf16_zeros(buffer@);
            lemma_trim_all_nul(decoded@);
        }
    }
    resource_name_from_text(decoded.as_str())
}

/// The name shown for a session whose owning process could not be found.
pub open spec fn unknown_process_name(pid: u32) -> Seq<char> {
    "Unknown Process ("@ + decimal(pid as nat) + ")"@
}

/// The name shown for a session named after its owning process: the
/// process's name, or a placeholder with the process id when the process is
/// not known.
pub fn process_session_name(pid: u32, process_name: Option<String>) -> (name: String)
    ensures
        name@ == match process_name {
            Some(n) => n@,
            None => unknown_process_name(pid),
        },
{
    match process_name {
        Some(n) => n,
        None => {
            let mut name = String::from_str("Unknown Process (");
            append_decimal(&mut name, pid);
            name.append(")");
            name
        },
    }
}

/// One listed audio session as the front end shows it. `volume_bits` is the
/// bit pattern of the session's master volume scalar (an `f32`).
pub struct AudioSession {
    pub pid: u32,
    pub name: String,
    pub volume_bits: u32,
    pub muted: bool,
    pub icon: Option<String>,
}

/// What the caller read from the system about one session. `display_name`
/// is the session's decoded display name (read when it is named by display
/// name; `None` when it could not be decoded), `resource_text` the buffer its
/// indirect resource string was loaded into (empty when none was loaded),
/// `process_name` the owning process's name when the process is known, and
/// `icon` the icon found for the process's executable.
pub struct SessionFacts {
    pub pid: u32,
    pub is_system_sounds: bool,
    pub volume_bits: u32,
    pub muted: bool,
    pub display_name: Option<String>,
    pub resource_text: Vec<u16>,
    pub process_name: Option<String>,
    pub icon: Option<String>,
}

/// The name shown for a session with the given facts: from its display name
/// (loaded from the resource string when that name is indirect) for the
/// system sounds or a session without a process, else from its process.
pub open spec fn session_name(facts: SessionFacts) -> Seq<char> {
    if facts.is_system_sounds || facts.pid == 0 {
        let shown = effective_display_name(
            match facts.display_name {
                Some(s) => Some(s@),
                None => None,
            },
        );
        if indirect(shown) {
            resource_name(utf16_lossy(facts.resource_text@))
        } else {
            shown
        }
    } else {
        match facts.process_name {
            Some(n) => n@,
            None => unknown_process_name(facts.pid),
        }
    }
}

/// One step of building the session list, in the order the system
/// enumerates the sessions: a listed session adds exactly one entry at the
/// end, carrying its process id, levels and icon and the name
/// `session_name` gives; a session that is not listed adds nothing.
pub fn add_listed_session(list: &mut Vec<AudioSession>, facts: SessionFacts)
    ensures
        !listed(facts.pid, facts.is_system_sounds) ==> final(list)@ == old(list)@,
        listed(facts.pid, facts.is_system_sounds) ==> {
            &&& final(list)@.len() == old(list)@.len() + 1
            &&& final(list)@.take(old(list)@.len() as int) == old(list)@
            &&& final(list)@.last().pid == facts.pid
            &&& final(list)@.last().name@ == session_name(facts)
            &&& final(list)@.last().volume_bits == facts.volume_bits
            &&& final(list)@.last().muted == facts.muted
            &&& final(list)@.last().icon == facts.icon
        },
{
    if !is_listed_session(facts.pid, facts.is_system_sounds) {
        return;
    }
    let ghost given = facts;
    let SessionFacts {
        pid,
        is_system_sounds,
        volume_bits,
        muted,
        display_name,
        resource_text,
        process_name,
        icon,
    } = facts;
    let name = if is_named_by_display_name(pid, is_system_sounds) {
        let shown = display_name_or_default(display_name);
        if is_indirect_resource(shown.as_str()) {
            localized_resource_name(resource_text.as_slice())
        } else {
            shown
        }
    } else {
        process_session_name(pid, process_name)
    };
    assert(name@ == session_name(given));
    list.push(AudioSession { pid, name, volume_bits, muted, icon });
    assert(list@.take(old(list)@.len() as int) =~= old(list)@);
}

/// The resource string used when a session has no display name is itself an
/// indirect resource reference, so it is always loaded.
pub proof fn lemma_default_resource_is_indirect()
    ensures
        indirect(default_system_sounds_resource()),
        indirect(effective_display_name(None)),
{
    reveal_strlit("@%SystemRoot%\\System32\\AudioSrv.Dll,-202");
}

/// A name taken from a resource string is never empty and never starts or
/// ends with a NUL character.
pub proof fn lemma_resource_name_clean(decoded: Seq<char>)
    ensures
        resource_name(decoded).len() > 0,
        resource_name(decoded)[0] != '\0',
        resource_name(decoded).last() != '\0',
{
    reveal_strlit("系统声音");
    lemma_trim_nul_ends(decoded);
}

/// Among listed sessions, those named by display name are exactly the
/// system-sounds session: a session without a process is only listed when it
/// is the system sounds.
pub proof fn lemma_listed_display_named_are_system_sounds(pid: u32, is_system_sounds: bool)
    requires
        listed(pid, is_system_sounds),
    ensures
        (is_system_sounds || pid == 0) == is_system_sounds,
{
}

/// Sessions of different unknown processes get different names.
pub proof fn lemma_unknown_process_names_distinct(a: u32, b: u32)
    requires
        a != b,
    ensures
        unknown_process_name(a) != unknown_process_name(b),
{
    reveal_strlit("Unknown Process (");
    reveal_strlit(")");
    let na = unknown_process_name(a);
    let nb = unknown_process_name(b);
    if na == nb {
        let prefix_len: nat = "Unknown Process ("@.len();
        assert(na.subrange(prefix_len as int, na.len() - 1) =~= decimal(a as nat));
        assert(nb.subrange(prefix_len as int, nb.len() - 1) =~= decimal(b as nat));
        lemma_decimal_injective(a as nat, b as nat);
    }
}

/// Every session that has an owning process is listed; a session without
/// one is listed exactly when it is the system-sounds session.
pub proof fn lemma_listing_rule(pid: u32, is_system_sounds: bool)
    ensures
        pid != 0 ==> listed(pid, is_system_sounds),
        listed(0, is_system_sounds) == is_system_sounds,
{
}

/// A resource name is the decoded text with exactly its leading and trailing
/// NULs cut off whenever the text holds anything but NULs, and the label
/// 系统声音 only when it holds nothing but NULs.
pub proof fn lemma_resource_name_rule(decoded: Seq<char>)
    ensures
        (exists|k: int| 0 <= k < decoded.len() && decoded[k] != '\0') ==> exists|i: int, j: int|
            i < j && #[trigger] nul_trimmed_window(decoded, resource_name(decoded), i, j),
        (forall|k: int| 0 <= k < decoded.len() ==> decoded[k] == '\0') ==> resource_name(decoded)
            == seq!['系', '统', '声', '音'],
{
    reveal_strlit("系统声音");
    lemma_trim_nul_window(decoded);
    let (i, j) = choose|i: int, j: int| #[trigger] nul_trimmed_window(decoded, trim_nul(decoded), i, j);
    if exists|k: int| 0 <= k < decoded.len() && decoded[k] != '\0' {
        let k = choose|k: int| 0 <= k < decoded.len() && decoded[k] != '\0';
        assert(i <= k < j);
        assert(trim_nul(decoded).len() > 0);
        assert(nul_trimmed_window(decoded, resource_name(decoded), i, j));
    }
    if forall|k: int| 0 <= k < decoded.len() ==> decoded[k] == '\0' {
        lemma_trim_all_nul(decoded);
        assert(system_sounds_label() =~= seq!['系', '统', '声', '音']);
    }
}

/// UTF-16 units outside the surrogate range decode one for one to the
/// characters with their values.
pub proof fn lemma_utf16_plain(units: Seq<u16>)
    requires
        forall|i: int| 0 <= i < units.len() ==> !(0xD800 <= #[trigger] units[i] <= 0xDFFF),
    ensures
        utf16_lossy(units) == units.map_values(|u: u16| u as char),
    decreases units.len(),
{
    if units.len() > 0 {
        let rest = units.skip(1);
        assert forall|i: int| 0 <= i < rest.len() implies !(0xD800 <= #[trigger] rest[i] <= 0xDFFF) by {
            assert(rest[i] == units[i + 1]);
        }
        lemma_utf16_plain(rest);
        assert(!(0xD800 <= units[0] <= 0xDFFF));
        assert(utf16_lossy(units) =~= units.map_values(|u: u16| u as char));
    } else {
        assert(utf16_lossy(units) =~= units.map_values(|u: u16| u as char));
    }
}

/// How a listed session is named. The system sounds or a session without a
/// process: a non-empty display name that does not start with '@' is shown
/// as it is; one that starts with '@', and a missing or empty one (whose
/// stand-in starts with '@'), is replaced by the name loaded from the
/// resource buffer. Any other session: the process's name, or
/// "Unknown Process (" with the decimal process id and ")".
pub proof fn lemma_session_name_rule(facts: SessionFacts)
    ensures
        (facts.is_system_sounds || facts.pid == 0) ==> match facts.display_name {
            Some(s) => if s@.len() > 0 && s@[0] != '@' {
                session_name(facts) == s@
            } else {
                session_name(facts) == resource_name(utf16_lossy(facts.resource_text@))
            },
            None => session_name(facts) == resource_name(utf16_lossy(facts.resource_text@)),
        },
        !(facts.is_system_sounds || facts.pid == 0) ==> match facts.process_name {
            Some(n) => session_name(facts) == n@,
            None => session_name(facts) == "Unknown Process ("@ + decimal(facts.pid as nat) + ")"@,
        },
{
    lemma_default_resource_is_indirect();
}

} // verus!
