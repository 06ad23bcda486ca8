//! The archive packer's core: from a manifest and the shape of the source
//! directory's assets, the ordered entry layout of the container stream.
//! The layout is proved to be exactly what the stream verifier accepts: a
//! successfully planned package always passes the stream check.

use vstd::prelude::*;
use vstd::string::StringExecFns;
use crate::errors::Error;
use crate::ident::lemma_package_id_of_default_name;
use crate::ident::spec_package_id;
use crate::ident::valid_package_id;
use crate::manifest::Asset;
use crate::manifest::Manifest;
use crate::manifest::manifest_checks_ok;
use crate::manifest::public_shared_ok;
use crate::manifest::public_shared_safe;
use crate::paths::path_is_safe;
use crate::paths::path_starts_with;
use crate::paths::validate_path;
use crate::stream::EntryHeader;
use crate::stream::EntryKind;
use crate::stream::VerifyState;
use crate::stream::accepts;
use crate::stream::dir_entry_name;
use crate::stream::is_dir_marker;
use crate::stream::is_dir_member;
use crate::stream::marker_name;
use crate::stream::spec_advance_assets;
use crate::stream::spec_step;
use crate::stream::stream_ok;
use crate::text::concat_strs;
use crate::text::spec_starts_with;
use crate::text::str_starts_with;
use crate::version::Version;
use crate::version::satisfies;
use crate::version::spec_satisfies;

verus! {

/// What the source directory holds for one declared asset: a single file,
/// or a directory subtree whose descendant entries (in the order they will
/// be written) are named by their full archive paths.
#[derive(Debug, Clone)]
pub enum AssetSource {
    File,
    Directory { members: Vec<String> },
}

/// A packable asset: safe declared paths, a source path outside the
/// reserved sentinel namespace, and — for a directory — members that lie
/// inside the subtree and cannot be mistaken for its boundary marker.
pub open spec fn source_ok(a: Asset, s: AssetSource) -> bool {
    &&& path_is_safe(a.src@)
    &&& path_is_safe(a.dst@)
    &&& !spec_starts_with(a.src@, "APPMGR_DIR_END:"@)
    &&& (s matches AssetSource::Directory { members } ==> forall|i: int|
        0 <= i < members@.len() ==> is_dir_member(#[trigger] members@[i]@, a.src@)
            && !is_dir_marker(members@[i]@, a.src@))
}

/// `p` is a declared path of the asset `a` that makes it unpackable: an
/// unsafe or sentinel-namespaced source, an unsafe destination, or a member
/// outside the subtree or shaped like its boundary marker.
pub open spec fn offending_source_path(a: Asset, s: AssetSource, p: Seq<char>) -> bool {
    ||| (p == a.src@ && (!path_is_safe(p) || spec_starts_with(p, "APPMGR_DIR_END:"@)))
    ||| (p == a.dst@ && !path_is_safe(p))
    ||| (s matches AssetSource::Directory { members } && (exists|i: int|
        0 <= i < members@.len() && p == (#[trigger] members@[i])@ && (!is_dir_member(p, a.src@)
            || is_dir_marker(p, a.src@))))
}

pub open spec fn sources_ok(m: Manifest, sources: Seq<AssetSource>) -> bool {
    forall|k: int| 0 <= k < m.assets@.len() ==> source_ok(#[trigger] m.assets@[k], sources[k])
}

/// When packing succeeds: the running version satisfies the manifest's
/// requirement and every asset is packable.
pub open spec fn pack_ok(m: Manifest, sources: Seq<AssetSource>, current: Version) -> bool {
    spec_satisfies(current, m.os_version_required) && sources_ok(m, sources)
}

/// The view of a plan: each entry's path characters and type, in order.
pub open spec fn plan_views(es: Seq<EntryHeader>) -> Seq<(Seq<char>, EntryKind)> {
    es.map_values(|e: EntryHeader| (e.path@, e.kind))
}

/// The views of a directory asset's member entries, in order.
pub open spec fn member_views(members: Seq<String>) -> Seq<(Seq<char>, EntryKind)> {
    members.map_values(|p: String| (p@, EntryKind::File))
}

/// The entries one asset contributes to the stream: a file asset is a single
/// file entry under its source path; a directory asset is its directory
/// entry, its members in order, then its zero-length boundary marker.
pub open spec fn asset_layout(a: Asset, s: AssetSource) -> Seq<(Seq<char>, EntryKind)> {
    match s {
        AssetSource::File => seq![(a.src@, EntryKind::File)],
        AssetSource::Directory { members } => seq![
            (dir_entry_name(a.src@), EntryKind::Directory),
        ] + member_views(members@) + seq![(marker_name(a.src@), EntryKind::File)],
    }
}

/// The entries the assets from position `k` on contribute, in manifest order.
pub open spec fn assets_layout(
    assets: Seq<Asset>,
    sources: Seq<AssetSource>,
    k: int,
) -> Seq<(Seq<char>, EntryKind)>
    decreases assets.len() - k,
{
    if 0 <= k < assets.len() {
        asset_layout(assets[k], sources[k]) + assets_layout(assets, sources, k + 1)
    } else {
        Seq::empty()
    }
}

/// The whole layout of a package stream: the three control sections, the
/// instructions entry when the manifest declares one, the assets in manifest
/// order, the embedded image last — and nothing else.
pub open spec fn plan_layout(m: Manifest, sources: Seq<AssetSource>) -> Seq<
    (Seq<char>, EntryKind),
> {
    seq![
        ("manifest.cbor"@, EntryKind::File),
        ("config_spec.cbor"@, EntryKind::File),
        ("config_rules.cbor"@, EntryKind::File),
    ] + (if m.has_instructions {
        seq![("instructions.md"@, EntryKind::File)]
    } else {
        Seq::empty()
    }) + assets_layout(m.assets@, sources, 0) + seq![("image.tar"@, EntryKind::File)]
}

/// The entries written so far drive the verifier from its initial state to
/// `st`, whatever follows them.
pub open spec fn drives_to(m: Manifest, es: Seq<EntryHeader>, st: VerifyState) -> bool {
    forall|rest: Seq<EntryHeader>| #[trigger] accepts(m, VerifyState::ExpectManifest, es + rest, 0)
        == accepts(m, st, es + rest, es.len() as int)
}

/// Appending an entry that the machine accepts in state `st` extends a
/// drive to `st` into a drive to the successor state.
proof fn lemma_drives_step(
    m: Manifest,
    es: Seq<EntryHeader>,
    st: VerifyState,
    e: EntryHeader,
    st2: VerifyState,
)
    requires
        drives_to(m, es, st),
        spec_step(m, st, e) == Some(st2),
    ensures
        drives_to(m, es.push(e), st2),
{
    assert forall|rest: Seq<EntryHeader>| #[trigger] accepts(
        m,
        VerifyState::ExpectManifest,
        es.push(e) + rest,
        0,
    ) == accepts(m, st2, es.push(e) + rest, es.push(e).len() as int) by {
        let s = es.push(e) + rest;
        let rest2 = seq![e] + rest;
        assert(es + rest2 =~= s);
        assert(accepts(m, VerifyState::ExpectManifest, es + rest2, 0) == accepts(
            m,
            st,
            es + rest2,
            es.len() as int,
        ));
        assert(s[es.len() as int] == e);
        if st is Done {
            assert(st2 is Done);
        } else {
            assert(accepts(m, st, s, es.len() as int) == accepts(m, st2, s, es.len() as int + 1));
        }
    }
}

/// Appends one entry to the plan, moving the verifier's ghost state along.
fn push_step(
    m: &Manifest,
    out: &mut Vec<EntryHeader>,
    Ghost(st): Ghost<VerifyState>,
    path: String,
    kind: EntryKind,
) -> (res: Ghost<VerifyState>)
    requires
        drives_to(*m, old(out)@, st),
        spec_step(*m, st, (EntryHeader { path: path, kind: kind })) is Some,
    ensures
        final(out)@ == old(out)@.push((EntryHeader { path: path, kind: kind })),
        plan_views(final(out)@) == plan_views(old(out)@).push(((path@, kind))),
        res@ == spec_step(*m, st, (EntryHeader { path: path, kind: kind }))->0,
        drives_to(*m, final(out)@, res@),
{
    let ghost prev = out@;
    let entry = EntryHeader { path, kind };
    let ghost e = entry;
    out.push(entry);
    proof {
        lemma_drives_step(*m, prev, st, e, spec_step(*m, st, e)->0);
        assert(plan_views(out@) =~= plan_views(prev).push((e.path@, e.kind)));
    }
    Ghost(spec_step(*m, st, e)->0)
}

/// Checks that every asset of the manifest is packable from its source;
/// the first offending path is an `InvalidFileName` error carrying it.
fn check_sources(m: &Manifest, sources: &Vec<AssetSource>) -> (r: Result<(), Error>)
    requires
        sources@.len() == m.assets@.len(),
    ensures
        r is Ok <==> sources_ok(*m, sources@),
        r is Err ==> r->Err_0 is InvalidFileName,
        r is Err ==> (r->Err_0 matches Error::InvalidFileName(p) ==> (exists|kk: int|
            0 <= kk < m.assets@.len() && #[trigger] offending_source_path(
                m.assets@[kk],
                sources@[kk],
                p@,
            ))),
{
    let n = m.assets.len();
    let mut k: usize = 0;
    while k < n
        invariant
            0 <= k <= n,
            n == m.assets@.len(),
            sources@.len() == m.assets@.len(),
            forall|t: int| 0 <= t < k ==> source_ok(#[trigger] m.assets@[t], sources@[t]),
        decreases n - k,
    {
        let a = &m.assets[k];
        if let Err(e) = validate_path(a.src.as_str()) {
            proof {
                assert(offending_source_path(
                    m.assets@[k as int],
                    sources@[k as int],
                    m.assets@[k as int].src@,
                ));
            }
            return Err(e);
        }
        if let Err(e) = validate_path(a.dst.as_str()) {
            proof {
                assert(offending_source_path(
                    m.assets@[k as int],
                    sources@[k as int],
                    m.assets@[k as int].dst@,
                ));
            }
            return Err(e);
        }
        if str_starts_with(a.src.as_str(), "APPMGR_DIR_END:") {
            let bad = Error::InvalidFileName(a.src.clone());
            proof {
                assert(bad->InvalidFileName_0@ == m.assets@[k as int].src@);
                assert(offending_source_path(
                    m.assets@[k as int],
                    sources@[k as int],
                    bad->InvalidFileName_0@,
                ));
            }
            return Err(bad);
        }
        if let AssetSource::Directory { members } = &sources[k] {
            let marker = concat_strs("APPMGR_DIR_END:", a.src.as_str());
            let prefix = concat_strs(a.src.as_str(), "/");
            let mn = members.len();
            let mut i: usize = 0;
            while i < mn
                invariant
                    0 <= i <= mn,
                    mn == members@.len(),
                    0 <= k < m.assets@.len(),
                    sources@.len() == m.assets@.len(),
                    sources@[k as int] == (AssetSource::Directory { members: *members }),
                    marker@ == marker_name(m.assets@[k as int].src@),
                    prefix@ == dir_entry_name(m.assets@[k as int].src@),
                    forall|t: int|
                        0 <= t < i ==> is_dir_member(
                            #[trigger] members@[t]@,
                            m.assets@[k as int].src@,
                        ) && !is_dir_marker(members@[t]@, m.assets@[k as int].src@),
                decreases mn - i,
            {
                let member = &members[i];
                let inside = str_starts_with(member.as_str(), prefix.as_str());
                let marker_like = path_starts_with(member.as_str(), marker.as_str());
                if !inside || marker_like {
                    let bad = Error::InvalidFileName(member.clone());
                    proof {
                        let mm = sources@[k as int]->Directory_members;
                        assert(mm@[i as int]@ == members@[i as int]@);
                        assert(bad->InvalidFileName_0@ == mm@[i as int]@);
                        assert(!source_ok(m.assets@[k as int], sources@[k as int]));
                        assert(!sources_ok(*m, sources@));
                        assert(offending_source_path(
                            m.assets@[k as int],
                            sources@[k as int],
                            bad->InvalidFileName_0@,
                        ));
                    }
                    return Err(bad);
                }
                i = i + 1;
            }
        }
        k = k + 1;
    }
    Ok(())
}

/// Plans the ordered entry layout of a package: the three control sections,
/// the instructions entry when the manifest declares one, each asset in
/// manifest order (a directory subtree followed by its boundary marker),
/// and the embedded image last. Succeeds exactly on packable inputs, and a
/// successful plan is accepted by the stream verifier.
pub fn pack_plan(m: &Manifest, sources: &Vec<AssetSource>, current: &Version) -> (r: Result<
    Vec<EntryHeader>,
    Error,
>)
    requires
        sources@.len() == m.assets@.len(),
    ensures
        r is Ok <==> pack_ok(*m, sources@, *current),
        r is Ok ==> stream_ok(*m, r->Ok_0@),
        r is Ok ==> plan_views(r->Ok_0@) == plan_layout(*m, sources@),
        r is Err ==> (r->Err_0 matches Error::VersionIncompatible(req) ==> req
            == m.os_version_required && !spec_satisfies(*current, m.os_version_required)),
        r is Err ==> r->Err_0 is VersionIncompatible || r->Err_0 is InvalidFileName,
        r is Err ==> (r->Err_0 matches Error::InvalidFileName(p) ==> (exists|kk: int|
            0 <= kk < m.assets@.len() && #[trigger] offending_source_path(
                m.assets@[kk],
                sources@[kk],
                p@,
            ))),
{
    if !satisfies(current, &m.os_version_required) {
        return Err(Error::VersionIncompatible(m.os_version_required));
    }
    check_sources(m, sources)?;
    let mut out: Vec<EntryHeader> = Vec::new();
    proof {
        assert forall|rest: Seq<EntryHeader>| #[trigger] accepts(
            *m,
            VerifyState::ExpectManifest,
            Seq::<EntryHeader>::empty() + rest,
            0,
        ) == accepts(
            *m,
            VerifyState::ExpectManifest,
            Seq::<EntryHeader>::empty() + rest,
            Seq::<EntryHeader>::empty().len() as int,
        ) by {
        }
        assert(out@ =~= Seq::<EntryHeader>::empty());
    }
    let mut st: Ghost<VerifyState> = Ghost(VerifyState::ExpectManifest);
    st = push_step(m, &mut out, st, String::from_str("manifest.cbor"), EntryKind::File);
    st = push_step(m, &mut out, st, String::from_str("config_spec.cbor"), EntryKind::File);
    proof {
        if !m.has_instructions && m.assets@.len() > 0 {
            assert(source_ok(m.assets@[0], sources@[0]));
        }
    }
    st = push_step(m, &mut out, st, String::from_str("config_rules.cbor"), EntryKind::File);
    if m.has_instructions {
        proof {
            if m.assets@.len() > 0 {
                assert(source_ok(m.assets@[0], sources@[0]));
            }
        }
        st = push_step(m, &mut out, st, String::from_str("instructions.md"), EntryKind::File);
    }
    proof {
        let head = seq![
            ("manifest.cbor"@, EntryKind::File),
            ("config_spec.cbor"@, EntryKind::File),
            ("config_rules.cbor"@, EntryKind::File),
        ] + (if m.has_instructions {
            seq![("instructions.md"@, EntryKind::File)]
        } else {
            Seq::<(Seq<char>, EntryKind)>::empty()
        });
        assert(plan_views(out@) =~= head);
        assert(plan_layout(*m, sources@) == plan_views(out@) + assets_layout(
            m.assets@,
            sources@,
            0,
        ) + seq![("image.tar"@, EntryKind::File)]);
    }
    let n = m.assets.len();
    let mut k: usize = 0;
    while k < n
        invariant
            0 <= k <= n,
            n == m.assets@.len(),
            sources@.len() == m.assets@.len(),
            pack_ok(*m, sources@, *current),
            drives_to(*m, out@, st@),
            st@ == spec_advance_assets(*m, k as int)->0,
            spec_advance_assets(*m, k as int) is Some,
            plan_layout(*m, sources@) == plan_views(out@) + assets_layout(
                m.assets@,
                sources@,
                k as int,
            ) + seq![("image.tar"@, EntryKind::File)],
        decreases n - k,
    {
        let a = &m.assets[k];
        proof {
            assert(source_ok(m.assets@[k as int], sources@[k as int]));
            if k + 1 < n {
                assert(source_ok(m.assets@[k as int + 1], sources@[k as int + 1]));
            }
        }
        let ghost v0 = plan_views(out@);
        let ghost rest = assets_layout(m.assets@, sources@, k as int + 1);
        match &sources[k] {
            AssetSource::File => {
                st = push_step(m, &mut out, st, a.src.clone(), EntryKind::File);
                proof {
                    let x = (m.assets@[k as int].src@, EntryKind::File);
                    assert(asset_layout(m.assets@[k as int], sources@[k as int]) == seq![x]);
                    assert(plan_views(out@) =~= v0 + seq![x]);
                    assert(v0 + (seq![x] + rest) =~= (v0 + seq![x]) + rest);
                }
            },
            AssetSource::Directory { members } => {
                let dir_name = concat_strs(a.src.as_str(), "/");
                st = push_step(m, &mut out, st, dir_name, EntryKind::Directory);
                let ghost dirx = (dir_entry_name(m.assets@[k as int].src@), EntryKind::Directory);
                proof {
                    assert(plan_views(out@) =~= v0 + seq![dirx]);
                    assert(member_views(members@.subrange(0, 0)) =~= Seq::<(
                        Seq<char>,
                        EntryKind,
                    )>::empty());
                    assert((v0 + seq![dirx]) + member_views(members@.subrange(0, 0)) =~= v0
                        + seq![dirx]);
                }
                let mn = members.len();
                let mut i: usize = 0;
                while i < mn
                    invariant
                        0 <= i <= mn,
                        mn == members@.len(),
                        k < n,
                        n == m.assets@.len(),
                        sources@.len() == m.assets@.len(),
                        sources@[k as int] == (AssetSource::Directory { members: *members }),
                        pack_ok(*m, sources@, *current),
                        drives_to(*m, out@, st@),
                        st@ == (VerifyState::InDirectory { index: k }),
                        dirx == (dir_entry_name(m.assets@[k as int].src@), EntryKind::Directory),
                        plan_views(out@) == v0 + seq![dirx] + member_views(
                            members@.subrange(0, i as int),
                        ),
                    decreases mn - i,
                {
                    proof {
                        assert(source_ok(m.assets@[k as int], sources@[k as int]));
                        let mm = sources@[k as int]->Directory_members;
                        assert(mm@[i as int]@ == members@[i as int]@);
                        assert(is_dir_member(mm@[i as int]@, m.assets@[k as int].src@));
                        assert(!is_dir_marker(mm@[i as int]@, m.assets@[k as int].src@));
                    }
                    let ghost before = plan_views(out@);
                    st = push_step(m, &mut out, st, members[i].clone(), EntryKind::File);
                    proof {
                        let x = (members@[i as int]@, EntryKind::File);
                        assert(members@.subrange(0, i as int + 1) =~= members@.subrange(
                            0,
                            i as int,
                        ).push(members@[i as int]));
                        assert(member_views(members@.subrange(0, i as int + 1))
                            =~= member_views(members@.subrange(0, i as int)).push(x));
                        assert(plan_views(out@) =~= before.push(x));
                        assert(((v0 + seq![dirx]) + member_views(
                            members@.subrange(0, i as int),
                        )).push(x) =~= (v0 + seq![dirx]) + member_views(
                            members@.subrange(0, i as int),
                        ).push(x));
                    }
                    i = i + 1;
                }
                let marker = concat_strs("APPMGR_DIR_END:", a.src.as_str());
                proof {
                    assert(is_dir_marker(marker@, m.assets@[k as int].src@));
                    if k + 1 < n {
                        assert(source_ok(m.assets@[k as int + 1], sources@[k as int + 1]));
                    }
                    assert(members@.subrange(0, mn as int) =~= members@);
                }
                let ghost before_marker = plan_views(out@);
                st = push_step(m, &mut out, st, marker, EntryKind::File);
                proof {
                    let mkx = (marker_name(m.assets@[k as int].src@), EntryKind::File);
                    let mm = sources@[k as int]->Directory_members;
                    assert(mm@ == members@);
                    let ax = asset_layout(m.assets@[k as int], sources@[k as int]);
                    assert(ax == seq![dirx] + member_views(members@) + seq![mkx]);
                    assert(plan_views(out@) =~= before_marker.push(mkx));
                    assert(((v0 + seq![dirx]) + member_views(members@)).push(mkx) =~= v0 + (
                    seq![dirx] + member_views(members@) + seq![mkx]));
                    assert(v0 + (ax + rest) =~= (v0 + ax) + rest);
                }
            },
        }
        k = k + 1;
    }
    let ghost vfinal = plan_views(out@);
    st = push_step(m, &mut out, st, String::from_str("image.tar"), EntryKind::File);
    proof {
        assert(out@ + Seq::<EntryHeader>::empty() =~= out@);
        assert(accepts(*m, VerifyState::ExpectManifest, out@ + Seq::<EntryHeader>::empty(), 0)
            == accepts(
            *m,
            st@,
            out@ + Seq::<EntryHeader>::empty(),
            out@.len() as int,
        ));
        let imgx = ("image.tar"@, EntryKind::File);
        assert(assets_layout(m.assets@, sources@, k as int) == Seq::<(
            Seq<char>,
            EntryKind,
        )>::empty());
        assert(vfinal + Seq::<(Seq<char>, EntryKind)>::empty() =~= vfinal);
        assert(plan_views(out@) =~= vfinal + seq![imgx]);
    }
    Ok(out)
}

/// The round trip from packing to verification. A packable package's plan
/// is accepted by the stream verifier outright (`pack_plan` ensures it);
/// this law adds the verifier's manifest-side checks: under the default
/// output file name `<id>.s9pk`, the identifier parses back to the
/// manifest's id, and the manifest checks accept exactly when the
/// public/shared directories respect containment and path safety — every
/// other check already holds for a packable package.
pub proof fn lemma_pack_then_verify(
    m: Manifest,
    sources: Seq<AssetSource>,
    current: Version,
    plan: Seq<EntryHeader>,
)
    requires
        pack_ok(m, sources, current),
        stream_ok(m, plan),
        valid_package_id(m.id@),
        forall|i: int| 0 <= i < m.id@.len() ==> m.id@[i] != '/' && m.id@[i] != '.',
    ensures
        spec_package_id(m.id@ + ".s9pk"@) == Some(m.id@),
        manifest_checks_ok(m, m.id@, current) <==> (public_shared_ok(m) && public_shared_safe(m)),
        (spec_package_id(m.id@ + ".s9pk"@) is Some && manifest_checks_ok(
            m,
            spec_package_id(m.id@ + ".s9pk"@)->0,
            current,
        ) && stream_ok(m, plan)) <==> (public_shared_ok(m) && public_shared_safe(m)),
{
    lemma_package_id_of_default_name(m.id@);
}

} // verus!
