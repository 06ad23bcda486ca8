//! The archive verifier's core: a forward-only state machine over the
//! container's entry stream. Entries are consumed strictly in the order the
//! packer writes them — manifest, config schema, config rules, optional
//! instructions, each declared asset (a directory subtree runs until its
//! boundary marker), and finally the embedded image. Each transition
//! consumes exactly one entry; the first mismatch is terminal.

use vstd::prelude::*;
use vstd::string::StringExecFns;
use crate::errors::Error;
use crate::manifest::Manifest;
use crate::paths::is_path_prefix;
use crate::paths::path_is_safe;
use crate::paths::path_starts_with;
use crate::paths::validate_path;
use crate::text::concat_strs;
use crate::text::spec_starts_with;
use crate::text::str_eq;
use crate::text::str_starts_with;

verus! {

/// The wire-level type of one entry of the container stream.
#[derive(Clone, Copy, Debug, PartialEq, Eq, Structural)]
pub enum EntryKind {
    File,
    Directory,
    Other,
}

/// One entry of the container stream, reduced to what verification reads:
/// its path and its type. Contents and sizes are not modeled: verification
/// streams past them without inspecting them, and the zero-length boundary
/// marker is recognized by its name alone.
#[derive(Debug, Clone)]
pub struct EntryHeader {
    pub path: String,
    pub kind: EntryKind,
}

/// The verifier's position in the expected section layout.
#[derive(Clone, Copy, Debug)]
pub enum VerifyState {
    /// Awaiting the manifest control entry.
    ExpectManifest,
    /// Awaiting the config schema control entry.
    ExpectSchema,
    /// Awaiting the config rules control entry.
    ExpectRules,
    /// Awaiting the instructions entry (declared by the manifest).
    ExpectInstructions,
    /// Awaiting the entry of the asset at `index`.
    ExpectAsset { index: usize },
    /// Inside the subtree of the directory asset at `index`, awaiting
    /// members or its boundary marker.
    InDirectory { index: usize },
    /// Awaiting the embedded image entry.
    ExpectImage,
    /// Every expected entry has been seen; trailing entries are ignored.
    Done,
}

/// The boundary marker's name for a directory asset: the reserved sentinel
/// prefix with the asset's source path appended.
pub open spec fn marker_name(src: Seq<char>) -> Seq<char> {
    "APPMGR_DIR_END:"@ + src
}

/// The name under which a directory asset itself appears in the stream: its
/// source path with a trailing separator.
pub open spec fn dir_entry_name(src: Seq<char>) -> Seq<char> {
    src + "/"@
}

/// An entry path that lies inside the subtree of the directory asset `src`.
pub open spec fn is_dir_member(p: Seq<char>, src: Seq<char>) -> bool {
    spec_starts_with(p, dir_entry_name(src))
}

/// An entry path that is the boundary marker of the directory asset `src`
/// (compared segment-wise, as the verifier reads entry paths).
pub open spec fn is_dir_marker(p: Seq<char>, src: Seq<char>) -> bool {
    is_path_prefix(marker_name(src), p)
}

/// A state that indexes into the manifest's asset list stays in bounds.
pub open spec fn state_wf(m: Manifest, st: VerifyState) -> bool {
    match st {
        VerifyState::ExpectAsset { index } => index < m.assets@.len(),
        VerifyState::InDirectory { index } => index < m.assets@.len(),
        _ => true,
    }
}

/// Entering the asset at position `k`: its declared paths must be safe; past
/// the last asset the image entry is awaited.
pub open spec fn spec_advance_assets(m: Manifest, k: int) -> Option<VerifyState> {
    if k >= m.assets@.len() {
        Some(VerifyState::ExpectImage)
    } else if path_is_safe(m.assets@[k].src@) && path_is_safe(m.assets@[k].dst@) {
        Some(VerifyState::ExpectAsset { index: k as usize })
    } else {
        None
    }
}

/// The transition relation: from state `st`, entry `e` either advances the
/// verifier or is rejected (`None`).
pub open spec fn spec_step(m: Manifest, st: VerifyState, e: EntryHeader) -> Option<VerifyState> {
    match st {
        VerifyState::ExpectManifest => if e.path@ == "manifest.cbor"@ {
            Some(VerifyState::ExpectSchema)
        } else {
            None
        },
        VerifyState::ExpectSchema => if e.path@ == "config_spec.cbor"@ {
            Some(VerifyState::ExpectRules)
        } else {
            None
        },
        VerifyState::ExpectRules => if e.path@ == "config_rules.cbor"@ {
            if m.has_instructions {
                Some(VerifyState::ExpectInstructions)
            } else {
                spec_advance_assets(m, 0)
            }
        } else {
            None
        },
        VerifyState::ExpectInstructions => if e.path@ == "instructions.md"@ {
            spec_advance_assets(m, 0)
        } else {
            None
        },
        VerifyState::ExpectAsset { index } => {
            let a = m.assets@[index as int];
            match e.kind {
                EntryKind::File => if e.path@ == a.src@ {
                    spec_advance_assets(m, index + 1)
                } else {
                    None
                },
                EntryKind::Directory => if e.path@ == dir_entry_name(a.src@) {
                    Some(VerifyState::InDirectory { index })
                } else {
                    None
                },
                EntryKind::Other => None,
            }
        },
        VerifyState::InDirectory { index } => {
            let a = m.assets@[index as int];
            if is_dir_marker(e.path@, a.src@) {
                spec_advance_assets(m, index + 1)
            } else if is_dir_member(e.path@, a.src@) {
                Some(VerifyState::InDirectory { index })
            } else {
                None
            }
        },
        VerifyState::ExpectImage => if e.path@ == "image.tar"@ {
            Some(VerifyState::Done)
        } else {
            None
        },
        VerifyState::Done => Some(VerifyState::Done),
    }
}

/// The entry name the verifier expects in state `st` for an entry of `e`'s
/// type: what a `PackageCorrupted` error names as the expected entry.
pub open spec fn expected_entry_name(m: Manifest, st: VerifyState, e: EntryHeader) -> Seq<char> {
    match st {
        VerifyState::ExpectManifest => "manifest.cbor"@,
        VerifyState::ExpectSchema => "config_spec.cbor"@,
        VerifyState::ExpectRules => "config_rules.cbor"@,
        VerifyState::ExpectInstructions => "instructions.md"@,
        VerifyState::ExpectAsset { index } => if e.kind is Directory {
            dir_entry_name(m.assets@[index as int].src@)
        } else {
            m.assets@[index as int].src@
        },
        VerifyState::InDirectory { index } => dir_entry_name(m.assets@[index as int].src@),
        VerifyState::ExpectImage => "image.tar"@,
        VerifyState::Done => Seq::empty(),
    }
}

/// Entering the asset at `k` fails on path safety, and `p` is the offending
/// declared path: what an `InvalidFileName` error out of a transition
/// carries.
pub open spec fn entering_asset_invalid(m: Manifest, k: int, p: Seq<char>) -> bool {
    &&& 0 <= k < m.assets@.len()
    &&& spec_advance_assets(m, k) is None
    &&& (p == m.assets@[k].src@ || p == m.assets@[k].dst@)
    &&& !path_is_safe(p)
}

/// The name of the logical section still owed in state `st`: what a
/// `MissingSection` error carries.
pub open spec fn missing_section_name(m: Manifest, st: VerifyState) -> Seq<char> {
    match st {
        VerifyState::ExpectManifest => "manifest"@,
        VerifyState::ExpectSchema => "config spec"@,
        VerifyState::ExpectRules => "config rules"@,
        VerifyState::ExpectInstructions => "instructions"@,
        VerifyState::ExpectAsset { index } => "asset: "@ + m.assets@[index as int].src@,
        VerifyState::InDirectory { index } => "directory end marker: "@ + marker_name(
            m.assets@[index as int].src@,
        ),
        VerifyState::ExpectImage => "image.tar"@,
        VerifyState::Done => Seq::empty(),
    }
}

/// The verifier's state after consuming the first `j` entries from the
/// initial state, or `None` once an entry was rejected.
pub open spec fn machine_state(m: Manifest, es: Seq<EntryHeader>, j: int) -> Option<VerifyState>
    decreases j,
{
    if j <= 0 {
        Some(VerifyState::ExpectManifest)
    } else {
        match machine_state(m, es, j - 1) {
            Some(st) => if j - 1 < es.len() {
                spec_step(m, st, es[j - 1])
            } else {
                None
            },
            None => None,
        }
    }
}

/// Acceptance from state `st` at position `j` of the stream: the machine
/// reaches `Done` before the entries run out.
pub open spec fn accepts(m: Manifest, st: VerifyState, entries: Seq<EntryHeader>, j: int) -> bool
    decreases entries.len() - j,
{
    if st is Done {
        true
    } else if j < 0 || j >= entries.len() {
        false
    } else {
        match spec_step(m, st, entries[j]) {
            Some(st2) => accepts(m, st2, entries, j + 1),
            None => false,
        }
    }
}

/// The whole acceptance condition of the verifier on an entry stream.
pub open spec fn stream_ok(m: Manifest, entries: Seq<EntryHeader>) -> bool {
    accepts(m, VerifyState::ExpectManifest, entries, 0)
}

/// From state `st` at position `j`, the machine consumes every remaining
/// entry without rejecting one, yet never reaches `Done`: the stream ended
/// while an entry was still owed.
pub open spec fn runs_out(m: Manifest, st: VerifyState, entries: Seq<EntryHeader>, j: int) -> bool
    decreases entries.len() - j,
{
    if st is Done {
        false
    } else if j < 0 || j >= entries.len() {
        true
    } else {
        match spec_step(m, st, entries[j]) {
            Some(st2) => runs_out(m, st2, entries, j + 1),
            None => false,
        }
    }
}

/// A truncation of the expected layout: the stream is consumed to its end
/// without a mismatch, but entries are still owed.
pub open spec fn stream_truncated(m: Manifest, entries: Seq<EntryHeader>) -> bool {
    runs_out(m, VerifyState::ExpectManifest, entries, 0)
}

/// Checks the name of the stream's very first entry, which must be the
/// manifest control section: the manifest has to be decoded before the
/// state machine can run against it.
pub fn check_manifest_entry_name(path: &str) -> (r: Result<(), Error>)
    ensures
        r is Ok <==> path@ == "manifest.cbor"@,
        r is Err ==> (r->Err_0 matches Error::PackageCorrupted { expected, actual } && expected@
            == "manifest.cbor"@ && actual@ == path@),
{
    if str_eq(path, "manifest.cbor") {
        Ok(())
    } else {
        Err(
            Error::PackageCorrupted {
                expected: String::from_str("manifest.cbor"),
                actual: path.to_owned(),
            },
        )
    }
}

/// Validates the declared paths of the asset at `k` and enters it, or moves
/// on to the image entry past the last asset.
fn advance_assets(m: &Manifest, k: usize) -> (r: Result<VerifyState, Error>)
    requires
        k <= m.assets@.len(),
    ensures
        r is Ok <==> spec_advance_assets(*m, k as int) is Some,
        r is Ok ==> r->Ok_0 == spec_advance_assets(*m, k as int)->0 && state_wf(*m, r->Ok_0),
        r is Err ==> (r->Err_0 matches Error::InvalidFileName(p) && entering_asset_invalid(
            *m,
            k as int,
            p@,
        )),
{
    if k == m.assets.len() {
        Ok(VerifyState::ExpectImage)
    } else {
        let a = &m.assets[k];
        validate_path(a.src.as_str())?;
        validate_path(a.dst.as_str())?;
        Ok(VerifyState::ExpectAsset { index: k })
    }
}

/// One transition of the verifier: consumes the entry `e` in state `st`.
/// A wrong name or type is a `PackageCorrupted` error naming the expected
/// and the actual entry; an unsafe declared asset path is `InvalidFileName`.
pub fn step(m: &Manifest, st: &VerifyState, e: &EntryHeader) -> (r: Result<VerifyState, Error>)
    requires
        state_wf(*m, *st),
    ensures
        r is Ok <==> spec_step(*m, *st, *e) is Some,
        r is Ok ==> r->Ok_0 == spec_step(*m, *st, *e)->0 && state_wf(*m, r->Ok_0),
        r is Err ==> r->Err_0 is PackageCorrupted || r->Err_0 is InvalidFileName,
        r is Err ==> (r->Err_0 matches Error::PackageCorrupted { expected, actual } ==> actual@
            == e.path@ && expected@ == expected_entry_name(*m, *st, *e)),
        r is Err ==> (r->Err_0 matches Error::InvalidFileName(p) ==> match *st {
            VerifyState::ExpectRules => !m.has_instructions && e.path@ == "config_rules.cbor"@
                && entering_asset_invalid(*m, 0, p@),
            VerifyState::ExpectInstructions => e.path@ == "instructions.md"@
                && entering_asset_invalid(*m, 0, p@),
            VerifyState::ExpectAsset { index } => e.kind is File && e.path@
                == m.assets@[index as int].src@ && entering_asset_invalid(
                *m,
                index as int + 1,
                p@,
            ),
            VerifyState::InDirectory { index } => is_dir_marker(
                e.path@,
                m.assets@[index as int].src@,
            ) && entering_asset_invalid(*m, index as int + 1, p@),
            _ => false,
        }),
{
    match st {
        VerifyState::ExpectManifest => {
            if str_eq(e.path.as_str(), "manifest.cbor") {
                Ok(VerifyState::ExpectSchema)
            } else {
                Err(
                    Error::PackageCorrupted {
                        expected: String::from_str("manifest.cbor"),
                        actual: e.path.clone(),
                    },
                )
            }
        },
        VerifyState::ExpectSchema => {
            if str_eq(e.path.as_str(), "config_spec.cbor") {
                Ok(VerifyState::ExpectRules)
            } else {
                Err(
                    Error::PackageCorrupted {
                        expected: String::from_str("config_spec.cbor"),
                        actual: e.path.clone(),
                    },
                )
            }
        },
        VerifyState::ExpectRules => {
            if str_eq(e.path.as_str(), "config_rules.cbor") {
                if m.has_instructions {
                    Ok(VerifyState::ExpectInstructions)
                } else {
                    advance_assets(m, 0)
                }
            } else {
                Err(
                    Error::PackageCorrupted {
                        expected: String::from_str("config_rules.cbor"),
                        actual: e.path.clone(),
                    },
                )
            }
        },
        VerifyState::ExpectInstructions => {
            if str_eq(e.path.as_str(), "instructions.md") {
                advance_assets(m, 0)
            } else {
                Err(
                    Error::PackageCorrupted {
                        expected: String::from_str("instructions.md"),
                        actual: e.path.clone(),
                    },
                )
            }
        },
        VerifyState::ExpectAsset { index } => {
            proof {
                vstd::std_specs::vec::axiom_spec_len(&m.assets);
            }
            let a = &m.assets[*index];
            match e.kind {
                EntryKind::File => {
                    if str_eq(e.path.as_str(), a.src.as_str()) {
                        advance_assets(m, *index + 1)
                    } else {
                        Err(
                            Error::PackageCorrupted {
                                expected: a.src.clone(),
                                actual: e.path.clone(),
                            },
                        )
                    }
                },
                EntryKind::Directory => {
                    let want = concat_strs(a.src.as_str(), "/");
                    if str_eq(e.path.as_str(), want.as_str()) {
                        Ok(VerifyState::InDirectory { index: *index })
                    } else {
                        Err(Error::PackageCorrupted { expected: want, actual: e.path.clone() })
                    }
                },
                EntryKind::Other => {
                    Err(Error::PackageCorrupted { expected: a.src.clone(), actual: e.path.clone() })
                },
            }
        },
        VerifyState::InDirectory { index } => {
            proof {
                vstd::std_specs::vec::axiom_spec_len(&m.assets);
            }
            let a = &m.assets[*index];
            let marker = concat_strs("APPMGR_DIR_END:", a.src.as_str());
            if path_starts_with(e.path.as_str(), marker.as_str()) {
                advance_assets(m, *index + 1)
            } else {
                let want = concat_strs(a.src.as_str(), "/");
                if str_starts_with(e.path.as_str(), want.as_str()) {
                    Ok(VerifyState::InDirectory { index: *index })
                } else {
                    Err(Error::PackageCorrupted { expected: want, actual: e.path.clone() })
                }
            }
        },
        VerifyState::ExpectImage => {
            if str_eq(e.path.as_str(), "image.tar") {
                Ok(VerifyState::Done)
            } else {
                Err(
                    Error::PackageCorrupted {
                        expected: String::from_str("image.tar"),
                        actual: e.path.clone(),
                    },
                )
            }
        },
        VerifyState::Done => Ok(VerifyState::Done),
    }
}

/// The error when the stream ends while an entry is still owed: a
/// `MissingSection` naming the missing logical section.
pub fn end_of_stream_error(m: &Manifest, st: &VerifyState) -> (e: Error)
    requires
        state_wf(*m, *st),
        !(*st is Done),
    ensures
        e matches Error::MissingSection(s) && s@ == missing_section_name(*m, *st),
{
    match st {
        VerifyState::ExpectManifest => Error::MissingSection(String::from_str("manifest")),
        VerifyState::ExpectSchema => Error::MissingSection(String::from_str("config spec")),
        VerifyState::ExpectRules => Error::MissingSection(String::from_str("config rules")),
        VerifyState::ExpectInstructions => Error::MissingSection(
            String::from_str("instructions"),
        ),
        VerifyState::ExpectAsset { index } => Error::MissingSection(
            concat_strs("asset: ", m.assets[*index].src.as_str()),
        ),
        VerifyState::InDirectory { index } => {
            let marker = concat_strs("APPMGR_DIR_END:", m.assets[*index].src.as_str());
            Error::MissingSection(concat_strs("directory end marker: ", marker.as_str()))
        },
        VerifyState::ExpectImage => Error::MissingSection(String::from_str("image.tar")),
        // excluded by the precondition: nothing is owed once Done
        VerifyState::Done => Error::MissingSection(String::from_str("manifest")),
    }
}

/// Runs the verifier over a whole entry stream: accepts exactly the streams
/// that the state machine accepts from its initial state.
pub fn verify_entry_stream(m: &Manifest, entries: &Vec<EntryHeader>) -> (r: Result<(), Error>)
    ensures
        r is Ok <==> stream_ok(*m, entries@),
        r is Err ==> r->Err_0 is PackageCorrupted || r->Err_0 is InvalidFileName
            || r->Err_0 is MissingSection,
        r is Err ==> (r->Err_0 is MissingSection <==> stream_truncated(*m, entries@)),
        r is Err ==> (r->Err_0 matches Error::MissingSection(s) ==> (machine_state(
            *m,
            entries@,
            entries@.len() as int,
        ) matches Some(stf) && !(stf is Done) && s@ == missing_section_name(*m, stf))),
        r is Err ==> (r->Err_0 matches Error::PackageCorrupted { expected, actual } ==> exists|
            jj: int,
        |
            (#[trigger] machine_state(*m, entries@, jj)) matches Some(stj) && 0 <= jj
                < entries@.len() && spec_step(*m, stj, entries@[jj]) is None && expected@
                == expected_entry_name(*m, stj, entries@[jj]) && actual@
                == entries@[jj].path@),
        r is Err ==> (r->Err_0 matches Error::InvalidFileName(p) ==> exists|k: int|
            #[trigger] entering_asset_invalid(*m, k, p@)),
{
    let n = entries.len();
    let mut st = VerifyState::ExpectManifest;
    let mut j: usize = 0;
    while j < n
        invariant
            0 <= j <= n,
            n == entries@.len(),
            state_wf(*m, st),
            machine_state(*m, entries@, j as int) == Some(st),
            stream_ok(*m, entries@) <==> accepts(*m, st, entries@, j as int),
            stream_truncated(*m, entries@) <==> runs_out(*m, st, entries@, j as int),
        decreases n - j,
    {
        if let VerifyState::Done = st {
            return Ok(());
        }
        match step(m, &st, &entries[j]) {
            Ok(st2) => {
                proof {
                    assert(accepts(*m, st, entries@, j as int) <==> accepts(
                        *m,
                        st2,
                        entries@,
                        j + 1,
                    ));
                    assert(runs_out(*m, st, entries@, j as int) <==> runs_out(
                        *m,
                        st2,
                        entries@,
                        j + 1,
                    ));
                    assert(machine_state(*m, entries@, j + 1) == Some(st2));
                }
                st = st2;
                j = j + 1;
            },
            Err(err) => {
                proof {
                    assert(!accepts(*m, st, entries@, j as int));
                    assert(!runs_out(*m, st, entries@, j as int));
                    let jj = j as int;
                    assert(err matches Error::PackageCorrupted { expected, actual }
                        ==> machine_state(*m, entries@, jj) matches Some(stj) && spec_step(
                        *m,
                        stj,
                        entries@[jj],
                    ) is None && expected@ == expected_entry_name(*m, stj, entries@[jj])
                        && actual@ == entries@[jj].path@);
                    assert(err matches Error::InvalidFileName(p) ==> exists|k: int|
                        #[trigger] entering_asset_invalid(*m, k, p@)) by {
                        match st {
                            VerifyState::ExpectRules | VerifyState::ExpectInstructions => {
                                assert(err matches Error::InvalidFileName(p)
                                    ==> entering_asset_invalid(*m, 0, p@));
                            },
                            VerifyState::ExpectAsset { index } => {
                                assert(err matches Error::InvalidFileName(p)
                                    ==> entering_asset_invalid(*m, index as int + 1, p@));
                            },
                            VerifyState::InDirectory { index } => {
                                assert(err matches Error::InvalidFileName(p)
                                    ==> entering_asset_invalid(*m, index as int + 1, p@));
                            },
                            _ => {
                            },
                        }
                    }
                }
                return Err(err);
            },
        }
    }
    match st {
        VerifyState::Done => Ok(()),
        _ => {
            proof {
                assert(!accepts(*m, st, entries@, j as int));
                assert(runs_out(*m, st, entries@, j as int));
            }
            Err(end_of_stream_error(m, &st))
        },
    }
}

} // verus!
