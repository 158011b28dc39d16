use vstd::prelude::*;
use vstd::utf8::{decode_utf8, encode_utf8, is_char_boundary};
use vstd::string::StringSliceAdditionalSpecFns;

use crate::error::Error;
use crate::github::Ref;
use crate::version::{ReleaseVersion, VersionRequirement, semver_req_matches, semver_version_parses, release_text};

verus! {

broadcast use vstd::utf8::group_utf8_lib;

/// How far an installed server is behind a requirement.
pub enum UpdateStatus {
    UpToDate,
    PatchBehind,
    MinorBehind,
    MajorBehind,
    CriticalBehind,
    NotInstalled,
}

/// The GitHub repository from which server releases are installed.
pub struct ServerDistribution {
    pub owner: String,
    pub repo: String,
}

/// What the data directory records about the installed server.
pub struct ServerManifest {
    pub version: ReleaseVersion,
    pub distribution: ServerDistribution,
}

impl Default for ServerManifest {
    /// Release 0.0.0 of `schueler-connect/backend`.
    fn default() -> (r: ServerManifest)
        ensures
            r.version@ == release_text(0, 0, 0),
            r.distribution.owner@ == "schueler-connect"@,
            r.distribution.repo@ == "backend"@,
    {
        ServerManifest {
            version: ReleaseVersion::new(0, 0, 0),
            distribution: ServerDistribution {
                owner: String::from_str("schueler-connect"),
                repo: String::from_str("backend"),
            },
        }
    }
}

/// One of the two directories a server release can be installed into.
#[derive(Clone, Copy, Debug, PartialEq, Eq, Structural)]
pub enum InstallSlot {
    A,
    B,
}

impl InstallSlot {
    /// The slot that is not `self`.
    pub open spec fn spec_other(self) -> InstallSlot {
        match self {
            InstallSlot::A => InstallSlot::B,
            InstallSlot::B => InstallSlot::A,
        }
    }

    /// The slot that is not `self`.
    pub fn other(self) -> (r: InstallSlot)
        ensures
            r == self.spec_other(),
    {
        match self {
            InstallSlot::A => InstallSlot::B,
            InstallSlot::B => InstallSlot::A,
        }
    }

    /// The slot's directory name inside the data directory.
    pub fn dir_name(self) -> (r: &'static str)
        ensures
            self == InstallSlot::A ==> r@ == crate::constants::INSTALL_DIR_A@,
            self == InstallSlot::B ==> r@ == crate::constants::INSTALL_DIR_B@,
    {
        match self {
            InstallSlot::A => crate::constants::INSTALL_DIR_A,
            InstallSlot::B => crate::constants::INSTALL_DIR_B,
        }
    }
}

/// Which installation directories can currently be listed.
#[derive(Clone, Copy, Debug, PartialEq, Eq, Structural)]
pub struct InstallProbe {
    pub a_present: bool,
    pub b_present: bool,
}

/// The installed server, as read from the data directory.
pub struct Installation {
    pub installed: bool,
    pub manifest: ServerManifest,
}

pub open spec fn neither_installation_text() -> Seq<char> {
    "Neither installation available"@
}

pub open spec fn both_installations_text() -> Seq<char> {
    "Both installations in use"@
}

pub open spec fn no_matching_tag_text() -> Seq<char> {
    "Couldn't locate a matching version tag"@
}

pub open spec fn one_installation_text() -> Seq<char> {
    "Only one installations appears to be populated"@
}

/// The active slot: A when it is present, else B when it is present.
pub open spec fn active_slot(probe: InstallProbe) -> Option<InstallSlot> {
    if probe.a_present {
        Some(InstallSlot::A)
    } else if probe.b_present {
        Some(InstallSlot::B)
    } else {
        None
    }
}

/// The inactive slot: A when it is absent, else B when it is absent.
pub open spec fn inactive_slot(probe: InstallProbe) -> Option<InstallSlot> {
    if !probe.a_present {
        Some(InstallSlot::A)
    } else if !probe.b_present {
        Some(InstallSlot::B)
    } else {
        None
    }
}

// ---------------------------------------------------------------------------
// Byte-wise order of tags

/// The lexicographic order of byte strings, the order of `String`s.
pub open spec fn bytes_le(a: Seq<u8>, b: Seq<u8>) -> bool
    decreases a.len(),
{
    if a.len() == 0 {
        true
    } else if b.len() == 0 {
        false
    } else if a[0] != b[0] {
        a[0] < b[0]
    } else {
        bytes_le(a.drop_first(), b.drop_first())
    }
}

/// Every byte string is ordered before itself.
pub proof fn lemma_bytes_le_reflexive(a: Seq<u8>)
    ensures
        bytes_le(a, a),
    decreases a.len(),
{
    if a.len() > 0 {
        lemma_bytes_le_reflexive(a.drop_first());
    }
}

/// Any two byte strings are ordered one way or the other.
pub proof fn lemma_bytes_le_total(a: Seq<u8>, b: Seq<u8>)
    ensures
        bytes_le(a, b) || bytes_le(b, a),
    decreases a.len(),
{
    if a.len() > 0 && b.len() > 0 && a[0] == b[0] {
        lemma_bytes_le_total(a.drop_first(), b.drop_first());
    }
}

/// The order is transitive.
pub proof fn lemma_bytes_le_transitive(a: Seq<u8>, b: Seq<u8>, c: Seq<u8>)
    requires
        bytes_le(a, b),
        bytes_le(b, c),
    ensures
        bytes_le(a, c),
    decreases a.len(),
{
    if a.len() > 0 && b.len() > 0 && c.len() > 0 && a[0] == b[0] && b[0] == c[0] {
        lemma_bytes_le_transitive(a.drop_first(), b.drop_first(), c.drop_first());
    }
}

/// The order is antisymmetric.
pub proof fn lemma_bytes_le_antisymmetric(a: Seq<u8>, b: Seq<u8>)
    requires
        bytes_le(a, b),
        bytes_le(b, a),
    ensures
        a == b,
    decreases a.len(),
{
    if a.len() > 0 && b.len() > 0 {
        lemma_bytes_le_antisymmetric(a.drop_first(), b.drop_first());
        assert(a =~= seq![a[0]] + a.drop_first());
        assert(b =~= seq![b[0]] + b.drop_first());
    } else {
        assert(a =~= b);
    }
}

/// `a` comes first in the order of `String`s: it is a prefix of `b` (the
/// empty string among them), or at the first place where the two differ, `a`
/// has the smaller byte.
pub proof fn lemma_bytes_le_lexicographic(a: Seq<u8>, b: Seq<u8>)
    ensures
        bytes_le(a, b) <==> (a.is_prefix_of(b) || exists|i: int|
            0 <= i < a.len() && i < b.len() && a.take(i) == b.take(i) && #[trigger] a[i] < b[i]),
    decreases a.len(),
{
    if a.len() == 0 {
        assert(a =~= b.subrange(0, 0));
    } else if b.len() == 0 {
    } else if a[0] != b[0] {
        if a.is_prefix_of(b) {
            assert(a[0] == b.subrange(0, a.len() as int)[0]);
        }
        if a[0] < b[0] {
            assert(a.take(0) =~= b.take(0));
            assert(a[0] < b[0]);
        } else {
            assert forall|i: int|
                0 <= i < a.len() && i < b.len() && a.take(i) == b.take(i) implies !(a[i] < b[i]) by {
                if i > 0 {
                    assert(a.take(i)[0] == b.take(i)[0]);
                }
            }
        }
    } else {
        let a1 = a.drop_first();
        let b1 = b.drop_first();
        lemma_bytes_le_lexicographic(a1, b1);
        if a1.is_prefix_of(b1) {
            assert forall|k: int| 0 <= k < a.len() implies #[trigger] a[k] == b.subrange(
                0,
                a.len() as int,
            )[k] by {
                if k > 0 {
                    assert(a[k] == a1[k - 1]);
                    assert(a1[k - 1] == b1.subrange(0, a1.len() as int)[k - 1]);
                }
            }
            assert(a =~= b.subrange(0, a.len() as int));
        }
        if a.is_prefix_of(b) {
            assert(a1 =~= b1.subrange(0, a1.len() as int));
        }
        if exists|j: int|
            0 <= j < a1.len() && j < b1.len() && a1.take(j) == b1.take(j) && #[trigger] a1[j] < b1[j] {
            let j = choose|j: int|
                0 <= j < a1.len() && j < b1.len() && a1.take(j) == b1.take(j) && #[trigger] a1[j]
                    < b1[j];
            assert(a.take(j + 1) =~= b.take(j + 1)) by {
                assert forall|k: int| 0 <= k < j + 1 implies #[trigger] a.take(j + 1)[k] == b.take(j + 1)[k] by {
                    if k > 0 {
                        assert(a1.take(j)[k - 1] == b1.take(j)[k - 1]);
                    }
                }
            }
            assert(a[j + 1] == a1[j]);
            assert(b[j + 1] == b1[j]);
        }
        if exists|i: int|
            0 <= i < a.len() && i < b.len() && a.take(i) == b.take(i) && #[trigger] a[i] < b[i] {
            let i = choose|i: int|
                0 <= i < a.len() && i < b.len() && a.take(i) == b.take(i) && #[trigger] a[i] < b[i];
            assert(i > 0);
            assert(a1.take(i - 1) =~= b1.take(i - 1)) by {
                assert forall|k: int| 0 <= k < i - 1 implies #[trigger] a1.take(i - 1)[k] == b1.take(i - 1)[k] by {
                    assert(a.take(i)[k + 1] == b.take(i)[k + 1]);
                }
            }
            assert(a1[i - 1] == a[i]);
            assert(b1[i - 1] == b[i]);
        }
    }
}

/// In particular, a string is ordered before every string it is a prefix of.
pub proof fn lemma_bytes_le_prefix(a: Seq<u8>, rest: Seq<u8>)
    ensures
        bytes_le(a, a + rest),
{
    lemma_bytes_le_lexicographic(a, a + rest);
    assert(a =~= (a + rest).subrange(0, a.len() as int));
}

/// Compares two byte strings in the order of `bytes_le`.
fn bytes_le_exec(a: &[u8], b: &[u8]) -> (r: bool)
    ensures
        r == bytes_le(a@, b@),
{
    let mut i: usize = 0;
    assert(a@.skip(0) =~= a@);
    assert(b@.skip(0) =~= b@);
    while i < a.len() && i < b.len()
        invariant
            i <= a.len(),
            i <= b.len(),
            bytes_le(a@, b@) == bytes_le(a@.skip(i as int), b@.skip(i as int)),
        decreases a.len() - i,
    {
        if a[i] != b[i] {
            assert(a@.skip(i as int)[0] == a[i as int]);
            assert(b@.skip(i as int)[0] == b[i as int]);
            return a[i] < b[i];
        }
        assert(a@.skip(i as int).drop_first() =~= a@.skip(i + 1));
        assert(b@.skip(i as int).drop_first() =~= b@.skip(i + 1));
        i = i + 1;
    }
    i == a.len()
}

// ---------------------------------------------------------------------------
// Choosing the release to install

/// The length of the prefix `refs/tags/v` that is cut off a tag reference.
pub open spec fn tag_prefix_len() -> int {
    11
}

/// Whether a reference can be cut after its first 11 bytes.
pub open spec fn tag_cuttable(reference: Seq<char>) -> bool {
    is_char_boundary(encode_utf8(reference), tag_prefix_len())
}

/// The bytes of a reference after its first 11 (`refs/tags/v`).
pub open spec fn tag_bytes(reference: Seq<char>) -> Seq<u8> {
    encode_utf8(reference).subrange(tag_prefix_len(), encode_utf8(reference).len() as int)
}

/// The tag named by a reference: its text after the first 11 bytes.
pub open spec fn tag_of(reference: Seq<char>) -> Seq<char> {
    decode_utf8(tag_bytes(reference))
}

/// Whether every listed reference can be cut into its tag.
pub open spec fn all_tags_cuttable(refs: Seq<Ref>) -> bool {
    forall|i: int| 0 <= i < refs.len() ==> tag_cuttable(#[trigger] refs[i].reference@)
}

/// Whether a tag is a semantic version that satisfies the requirement.
pub open spec fn tag_satisfies(tag: Seq<char>, req: Seq<char>) -> bool {
    semver_version_parses(tag) && semver_req_matches(req, tag)
}

/// Whether some listed tag satisfies the requirement.
pub open spec fn some_tag_satisfies(refs: Seq<Ref>, req: Seq<char>) -> bool {
    exists|i: int| 0 <= i < refs.len() && tag_satisfies(tag_of(#[trigger] refs[i].reference@), req)
}

/// Whether `t` is the least listed tag, in the order of `String`s, that
/// satisfies the requirement.
pub open spec fn is_lowest_satisfying_tag(refs: Seq<Ref>, req: Seq<char>, t: Seq<char>) -> bool {
    &&& exists|i: int| 0 <= i < refs.len() && tag_of(#[trigger] refs[i].reference@) == t
    &&& tag_satisfies(t, req)
    &&& forall|i: int|
        0 <= i < refs.len() && tag_satisfies(tag_of(#[trigger] refs[i].reference@), req)
            ==> bytes_le(encode_utf8(t), tag_bytes(refs[i].reference@))
}

proof fn lemma_tag_bytes_encode(reference: Seq<char>)
    requires
        tag_cuttable(reference),
    ensures
        encode_utf8(tag_of(reference)) == tag_bytes(reference),
{
    vstd::utf8::valid_utf8_split(encode_utf8(reference), tag_prefix_len());
}

/// At most one listed tag is the least satisfying one.
pub proof fn lemma_lowest_tag_unique(refs: Seq<Ref>, req: Seq<char>, t1: Seq<char>, t2: Seq<char>)
    requires
        all_tags_cuttable(refs),
        is_lowest_satisfying_tag(refs, req, t1),
        is_lowest_satisfying_tag(refs, req, t2),
    ensures
        t1 == t2,
{
    let i1 = choose|i: int| 0 <= i < refs.len() && tag_of(#[trigger] refs[i].reference@) == t1;
    let i2 = choose|i: int| 0 <= i < refs.len() && tag_of(#[trigger] refs[i].reference@) == t2;
    lemma_tag_bytes_encode(refs[i1].reference@);
    lemma_tag_bytes_encode(refs[i2].reference@);
    lemma_bytes_le_antisymmetric(encode_utf8(t1), encode_utf8(t2));
    assert(decode_utf8(encode_utf8(t1)) == t1);
    assert(decode_utf8(encode_utf8(t2)) == t2);
}

/// Picks the release to install among the listed tag references: the least
/// tag (in the order of `String`s) that is a semantic version satisfying
/// `req`, or `None` where no tag does.
pub fn select_target_tag(refs: &Vec<Ref>, req: &VersionRequirement) -> (r: Option<String>)
    requires
        all_tags_cuttable(refs@),
    ensures
        r is None <==> !some_tag_satisfies(refs@, req@),
        r matches Some(t) ==> is_lowest_satisfying_tag(refs@, req@, t@),
{
    let mut best: Option<String> = None;
    let n = refs.len();
    for i in 0..n
        invariant
            n == refs@.len(),
            all_tags_cuttable(refs@),
            best is None <==> !(exists|j: int|
                0 <= j < i && tag_satisfies(tag_of(#[trigger] refs@[j].reference@), req@)),
            best matches Some(b) ==> {
                &&& exists|j: int| 0 <= j < i && tag_of(#[trigger] refs@[j].reference@) == b@
                &&& tag_satisfies(b@, req@)
                &&& forall|j: int|
                    0 <= j < i && tag_satisfies(tag_of(#[trigger] refs@[j].reference@), req@)
                        ==> bytes_le(encode_utf8(b@), tag_bytes(refs@[j].reference@))
            },
    {
        let reference = refs[i].reference.as_str();
        assert(tag_cuttable(refs@[i as int].reference@));
        let (_, tail) = reference.split_at(11);
        proof {
            assert(tail.spec_bytes() == tag_bytes(reference@));
            assert(decode_utf8(encode_utf8(tail@)) == tail@);
            assert(tail@ == tag_of(refs@[i as int].reference@));
        }
        let parsed = ReleaseVersion::parse(tail);
        let satisfies = match &parsed {
            Some(v) => req.matches(v),
            None => false,
        };
        assert(satisfies == tag_satisfies(tail@, req@));
        if satisfies {
            let replace = match &best {
                None => true,
                Some(b) => !bytes_le_exec(b.as_str().as_bytes(), tail.as_bytes()),
            };
            if replace {
                proof {
                    if let Some(b) = &best {
                        lemma_bytes_le_total(encode_utf8(b@), encode_utf8(tail@));
                        assert forall|j: int|
                            0 <= j < i && tag_satisfies(tag_of(#[trigger] refs@[j].reference@), req@)
                                implies bytes_le(encode_utf8(tail@), tag_bytes(refs@[j].reference@)) by {
                            lemma_bytes_le_transitive(
                                encode_utf8(tail@),
                                encode_utf8(b@),
                                tag_bytes(refs@[j].reference@),
                            );
                        }
                    }
                }
                proof {
                    lemma_bytes_le_reflexive(tag_bytes(refs@[i as int].reference@));
                }
                best = Some(tail.to_owned());
            } else {
                proof {
                    let b = best->0;
                    assert(bytes_le(encode_utf8(b@), tag_bytes(refs@[i as int].reference@)));
                }
            }
        }
        proof {
            if let Some(b) = &best {
                let w = choose|j: int| 0 <= j < i + 1 && tag_of(#[trigger] refs@[j].reference@) == b@;
                assert(0 <= w < i + 1 && tag_of(refs@[w].reference@) == b@);
            }
        }
    }
    best
}

// ---------------------------------------------------------------------------
// The installation

impl Installation {
    /// The installation as found on disk: installed when a slot is present.
    pub fn load(probe: InstallProbe, manifest: ServerManifest) -> (r: Installation)
        ensures
            r.installed == (active_slot(probe) is Some),
            r.manifest == manifest,
    {
        let installed = Installation::get_active_install(probe).is_ok();
        Installation { installed, manifest }
    }

    /// The slot the running server lives in: A when present, else B when
    /// present, else an error.
    pub fn get_active_install(probe: InstallProbe) -> (r: Result<InstallSlot, Error>)
        ensures
            match active_slot(probe) {
                Some(s) => r == Ok::<InstallSlot, Error>(s),
                None => r matches Err(e) && e.has_message(neither_installation_text()),
            },
    {
        if probe.a_present {
            Ok(InstallSlot::A)
        } else if probe.b_present {
            Ok(InstallSlot::B)
        } else {
            Err(Error::with_message("Neither installation available"))
        }
    }

    /// The slot a new release can be installed into: A when absent, else B
    /// when absent, else an error.
    pub fn get_inactive_install(probe: InstallProbe) -> (r: Result<InstallSlot, Error>)
        ensures
            match inactive_slot(probe) {
                Some(s) => r == Ok::<InstallSlot, Error>(s),
                None => r matches Err(e) && e.has_message(both_installations_text()),
            },
    {
        if !probe.a_present {
            Ok(InstallSlot::A)
        } else if !probe.b_present {
            Ok(InstallSlot::B)
        } else {
            Err(Error::with_message("Both installations in use"))
        }
    }

    /// Whether the installed release satisfies the requirement.
    pub fn is_current(&self, for_target: &VersionRequirement) -> (r: bool)
        ensures
            r == semver_req_matches(for_target@, self.manifest.version@),
    {
        for_target.matches(&self.manifest.version)
    }
}

/// The active and the inactive slot are never the same directory, and when
/// exactly one slot is populated they are the two different slots.
pub proof fn lemma_active_inactive_differ(probe: InstallProbe)
    ensures
        active_slot(probe) is Some && inactive_slot(probe) is Some ==> active_slot(probe)
            != inactive_slot(probe),
        probe.a_present != probe.b_present ==> (active_slot(probe) matches Some(s)
            && inactive_slot(probe) == Some(s.spec_other())),
{
}

// ---------------------------------------------------------------------------
// Starting and stopping the server

/// The npm scripts of the server that start and tear it down.
#[derive(Clone, Copy, Debug, PartialEq, Eq, Structural)]
pub enum ServerScript {
    Selfhost,
    Teardown,
}

impl ServerScript {
    /// The script's name for `npm run`.
    pub fn npm_script(self) -> (r: &'static str)
        ensures
            self == ServerScript::Selfhost ==> r@ == "selfhost"@,
            self == ServerScript::Teardown ==> r@ == "teardown"@,
    {
        match self {
            ServerScript::Selfhost => "selfhost",
            ServerScript::Teardown => "teardown",
        }
    }
}

/// The message of the error when `npm run <script>` cannot be spawned.
pub open spec fn spawn_failure_text(script: ServerScript) -> Seq<char> {
    match script {
        ServerScript::Selfhost => "Couldn't run `npm run selfhost`"@,
        ServerScript::Teardown => "Couldn't run `npm run teardown`"@,
    }
}

/// The message of the error when waiting for `npm run <script>` fails.
pub open spec fn wait_failure_text(script: ServerScript) -> Seq<char> {
    match script {
        ServerScript::Selfhost => "Failed to start server for selfhosting"@,
        ServerScript::Teardown => "Failed to tear down server"@,
    }
}

/// How running an npm script ended: it could not be spawned, waiting for it
/// failed, or it exited (with whatever status).
#[derive(Clone, Copy, Debug, PartialEq, Eq, Structural)]
pub enum NpmOutcome {
    SpawnFailed,
    WaitFailed,
    Exited,
}

/// Where starting or stopping the server stands.
#[derive(Clone, Copy, Debug, PartialEq, Eq, Structural)]
pub enum ServerStage {
    CreatingVolumes,
    ProbingSlots(ServerScript),
    RunningScript(ServerScript),
    Finished,
}

/// What starting or stopping the server asks to be done next.
#[derive(Debug)]
pub enum ServerAction {
    /// Create the MongoDB volume directory (and its parents).
    CreateVolumes,
    /// Find out which installation directories can be listed.
    ProbeSlots,
    /// Run `npm run <script>` in the slot's directory and wait for it.
    RunScript { dir: InstallSlot, script: ServerScript },
    Finish(Result<(), Error>),
}

impl ServerStage {
    /// After the volume directory was created (or not).
    pub fn volumes_created(self, created: Result<(), Error>) -> (r: (ServerStage, ServerAction))
        requires
            self == ServerStage::CreatingVolumes,
        ensures
            match created {
                Ok(_) => r == (ServerStage::ProbingSlots(ServerScript::Selfhost), ServerAction::ProbeSlots),
                Err(e) => r == (ServerStage::Finished, ServerAction::Finish(Err(e))),
            },
    {
        match created {
            Ok(_) => (ServerStage::ProbingSlots(ServerScript::Selfhost), ServerAction::ProbeSlots),
            Err(e) => (ServerStage::Finished, ServerAction::Finish(Err(e))),
        }
    }

    /// After the installation directories were probed: run the script in the
    /// active slot, or fail when there is none.
    pub fn slots_probed(self, probe: InstallProbe) -> (r: (ServerStage, ServerAction))
        requires
            self matches ServerStage::ProbingSlots(_),
        ensures
            self matches ServerStage::ProbingSlots(script) ==> match active_slot(probe) {
                Some(s) => r == (
                    ServerStage::RunningScript(script),
                    ServerAction::RunScript { dir: s, script },
                ),
                None => r.0 == ServerStage::Finished && (r.1 matches ServerAction::Finish(Err(e))
                    && e.has_message(neither_installation_text())),
            },
    {
        let script = match self {
            ServerStage::ProbingSlots(script) => script,
            _ => ServerScript::Selfhost,
        };
        match Installation::get_active_install(probe) {
            Ok(dir) => (ServerStage::RunningScript(script), ServerAction::RunScript { dir, script }),
            Err(e) => (ServerStage::Finished, ServerAction::Finish(Err(e))),
        }
    }

    /// After the npm script ended. Its exit status is not looked at.
    pub fn script_finished(self, outcome: NpmOutcome) -> (r: (ServerStage, ServerAction))
        requires
            self matches ServerStage::RunningScript(_),
        ensures
            r.0 == ServerStage::Finished,
            self matches ServerStage::RunningScript(script) ==> match outcome {
                NpmOutcome::Exited => r.1 == ServerAction::Finish(Ok(())),
                NpmOutcome::SpawnFailed => r.1 matches ServerAction::Finish(Err(e))
                    && e.has_message(spawn_failure_text(script)),
                NpmOutcome::WaitFailed => r.1 matches ServerAction::Finish(Err(e))
                    && e.has_message(wait_failure_text(script)),
            },
    {
        let script = match self {
            ServerStage::RunningScript(script) => script,
            _ => ServerScript::Selfhost,
        };
        let result = match outcome {
            NpmOutcome::Exited => Ok(()),
            NpmOutcome::SpawnFailed => match script {
                ServerScript::Selfhost => Err(Error::with_message("Couldn't run `npm run selfhost`")),
                ServerScript::Teardown => Err(Error::with_message("Couldn't run `npm run teardown`")),
            },
            NpmOutcome::WaitFailed => match script {
                ServerScript::Selfhost => Err(
                    Error::with_message("Failed to start server for selfhosting"),
                ),
                ServerScript::Teardown => Err(Error::with_message("Failed to tear down server")),
            },
        };
        (ServerStage::Finished, ServerAction::Finish(result))
    }
}

// ---------------------------------------------------------------------------
// Switching installations

/// Where switching to a freshly unpacked installation stands.
#[derive(Clone, Copy, Debug, PartialEq, Eq, Structural)]
pub enum SwitchStage {
    ProbingSlots(InstallSlot),
    StoppingServer(InstallSlot),
    RemovingOld(InstallSlot),
    StartingServer,
    Finished,
}

/// What switching installations asks to be done next.
#[derive(Debug)]
pub enum SwitchAction {
    ProbeSlots,
    /// Stop the running server (see `Installation::stop`).
    StopServer,
    /// Remove the slot's directory with everything in it.
    RemoveDir(InstallSlot),
    /// Start the server (see `Installation::start`).
    StartServer,
    Finish(Result<(), Error>),
}

impl SwitchStage {
    /// After probing: both slots must be populated; otherwise the switch is
    /// refused.
    pub fn slots_probed(self, probe: InstallProbe) -> (r: (SwitchStage, SwitchAction))
        requires
            self matches SwitchStage::ProbingSlots(_),
        ensures
            self matches SwitchStage::ProbingSlots(to) ==> if inactive_slot(probe) is Some {
                r.0 == SwitchStage::Finished && (r.1 matches SwitchAction::Finish(Err(e))
                    && e.has_message(one_installation_text()))
            } else {
                r == (SwitchStage::StoppingServer(to), SwitchAction::StopServer)
            },
    {
        let to = match self {
            SwitchStage::ProbingSlots(to) => to,
            _ => InstallSlot::A,
        };
        if Installation::get_inactive_install(probe).is_ok() {
            (
                SwitchStage::Finished,
                SwitchAction::Finish(
                    Err(Error::with_message("Only one installations appears to be populated")),
                ),
            )
        } else {
            (SwitchStage::StoppingServer(to), SwitchAction::StopServer)
        }
    }

    /// After stopping the server: remove the slot that is not the target.
    pub fn server_stopped(self, stopped: Result<(), Error>) -> (r: (SwitchStage, SwitchAction))
        requires
            self matches SwitchStage::StoppingServer(_),
        ensures
            self matches SwitchStage::StoppingServer(to) ==> match stopped {
                Ok(_) => r == (
                    SwitchStage::RemovingOld(to.spec_other()),
                    SwitchAction::RemoveDir(to.spec_other()),
                ),
                Err(e) => r == (SwitchStage::Finished, SwitchAction::Finish(Err(e))),
            },
    {
        let to = match self {
            SwitchStage::StoppingServer(to) => to,
            _ => InstallSlot::A,
        };
        match stopped {
            Ok(_) => (SwitchStage::RemovingOld(to.other()), SwitchAction::RemoveDir(to.other())),
            Err(e) => (SwitchStage::Finished, SwitchAction::Finish(Err(e))),
        }
    }

    /// After removing the old installation: start the server.
    pub fn old_removed(self, removed: Result<(), Error>) -> (r: (SwitchStage, SwitchAction))
        requires
            self matches SwitchStage::RemovingOld(_),
        ensures
            match removed {
                Ok(_) => r == (SwitchStage::StartingServer, SwitchAction::StartServer),
                Err(e) => r == (SwitchStage::Finished, SwitchAction::Finish(Err(e))),
            },
    {
        match removed {
            Ok(_) => (SwitchStage::StartingServer, SwitchAction::StartServer),
            Err(e) => (SwitchStage::Finished, SwitchAction::Finish(Err(e))),
        }
    }

    /// After starting the server: the switch ends with the start's result.
    pub fn server_started(self, started: Result<(), Error>) -> (r: (SwitchStage, SwitchAction))
        requires
            self == SwitchStage::StartingServer,
        ensures
            r == (SwitchStage::Finished, SwitchAction::Finish(started)),
    {
        (SwitchStage::Finished, SwitchAction::Finish(started))
    }
}

// ---------------------------------------------------------------------------
// Updating to a release that satisfies a requirement

/// Where an update stands.
#[derive(Clone, Copy, Debug, PartialEq, Eq, Structural)]
pub enum UpdateStage {
    ListingTags,
    FetchingTarball,
    ProbingSlots,
    CreatingDir(InstallSlot),
    Unpacking(InstallSlot),
    Switching,
    Finished,
}

/// What an update asks to be done next.
#[derive(Debug)]
pub enum UpdateAction {
    /// List the tags of `owner/repo` (see `list_tags`).
    ListTags { owner: String, repo: String },
    /// Start downloading the gzipped tarball of `reference` (see `get_tarball`).
    FetchTarball { owner: String, repo: String, reference: String },
    ProbeSlots,
    /// Create the slot's directory (and its parents).
    CreateDir(InstallSlot),
    /// Unpack the downloaded tarball into the slot's directory.
    Unpack(InstallSlot),
    /// Switch to the slot (see `Installation::switch_installations`).
    SwitchTo(InstallSlot),
    Finish(Result<(), Error>),
}

/// The tarball reference for a tag: `tags/v<tag>`.
pub open spec fn tag_reference_text(tag: Seq<char>) -> Seq<char> {
    "tags/v"@ + tag
}

/// The tarball reference is `tags/v` followed by the whole tag: six
/// characters more than the tag, and the tag is what follows `tags/v`.
pub proof fn lemma_tag_reference_shape(tag: Seq<char>)
    ensures
        tag_reference_text(tag).len() == tag.len() + 6,
        tag_reference_text(tag).take(6) == "tags/v"@,
        tag_reference_text(tag).skip(6) == tag,
{
    reveal_strlit("tags/v");
    assert(tag_reference_text(tag).take(6) =~= "tags/v"@);
    assert(tag_reference_text(tag).skip(6) =~= tag);
}

impl UpdateStage {
    /// After the tags were listed: fetch the tarball of the least tag that
    /// satisfies the requirement, or fail.
    pub fn tags_listed(
        self,
        installation: &Installation,
        req: &VersionRequirement,
        tags: Result<Vec<Ref>, Error>,
    ) -> (r: (UpdateStage, UpdateAction))
        requires
            self == UpdateStage::ListingTags,
            tags matches Ok(refs) ==> all_tags_cuttable(refs@),
        ensures
            match tags {
                Err(e) => r == (UpdateStage::Finished, UpdateAction::Finish(Err(e))),
                Ok(refs) => if some_tag_satisfies(refs@, req@) {
                    &&& r.0 == UpdateStage::FetchingTarball
                    &&& r.1 matches UpdateAction::FetchTarball { owner, repo, reference }
                    &&& owner@ == installation.manifest.distribution.owner@
                    &&& repo@ == installation.manifest.distribution.repo@
                    &&& exists|t: Seq<char>|
                        is_lowest_satisfying_tag(refs@, req@, t) && reference@
                            == #[trigger] tag_reference_text(t) && reference@.len() == t.len() + 6
                            && reference@.take(6) == "tags/v"@ && reference@.skip(6) == t
                } else {
                    r.0 == UpdateStage::Finished && (r.1 matches UpdateAction::Finish(Err(e))
                        && e.has_message(no_matching_tag_text()))
                },
            },
    {
        match tags {
            Err(e) => (UpdateStage::Finished, UpdateAction::Finish(Err(e))),
            Ok(refs) => match select_target_tag(&refs, req) {
                None => (
                    UpdateStage::Finished,
                    UpdateAction::Finish(
                        Err(Error::with_message("Couldn't locate a matching version tag")),
                    ),
                ),
                Some(tag) => {
                    let mut reference = String::from_str("tags/v");
                    reference.append(tag.as_str());
                    assert(reference@ == tag_reference_text(tag@));
                    proof {
                        reveal_strlit("tags/v");
                        assert(reference@.take(6) =~= "tags/v"@);
                        assert(reference@.skip(6) =~= tag@);
                    }
                    (
                        UpdateStage::FetchingTarball,
                        UpdateAction::FetchTarball {
                            owner: installation.manifest.distribution.owner.clone(),
                            repo: installation.manifest.distribution.repo.clone(),
                            reference,
                        },
                    )
                },
            },
        }
    }

    /// After the download was started (or not).
    pub fn tarball_fetched(self, fetched: Result<(), Error>) -> (r: (UpdateStage, UpdateAction))
        requires
            self == UpdateStage::FetchingTarball,
        ensures
            match fetched {
                Ok(_) => r == (UpdateStage::ProbingSlots, UpdateAction::ProbeSlots),
                Err(e) => r == (UpdateStage::Finished, UpdateAction::Finish(Err(e))),
            },
    {
        match fetched {
            Ok(_) => (UpdateStage::ProbingSlots, UpdateAction::ProbeSlots),
            Err(e) => (UpdateStage::Finished, UpdateAction::Finish(Err(e))),
        }
    }

    /// After probing: the release goes into the inactive slot; when both are
    /// populated the update fails.
    pub fn slots_probed(self, probe: InstallProbe) -> (r: (UpdateStage, UpdateAction))
        requires
            self == UpdateStage::ProbingSlots,
        ensures
            match inactive_slot(probe) {
                Some(s) => r == (UpdateStage::CreatingDir(s), UpdateAction::CreateDir(s)),
                None => r.0 == UpdateStage::Finished && (r.1 matches UpdateAction::Finish(Err(e))
                    && e.has_message(both_installations_text())),
            },
    {
        match Installation::get_inactive_install(probe) {
            Ok(s) => (UpdateStage::CreatingDir(s), UpdateAction::CreateDir(s)),
            Err(e) => (UpdateStage::Finished, UpdateAction::Finish(Err(e))),
        }
    }

    /// After the target directory was created (or not).
    pub fn dir_created(self, created: Result<(), Error>) -> (r: (UpdateStage, UpdateAction))
        requires
            self matches UpdateStage::CreatingDir(_),
        ensures
            self matches UpdateStage::CreatingDir(s) ==> match created {
                Ok(_) => r == (UpdateStage::Unpacking(s), UpdateAction::Unpack(s)),
                Err(e) => r == (UpdateStage::Finished, UpdateAction::Finish(Err(e))),
            },
    {
        let s = match self {
            UpdateStage::CreatingDir(s) => s,
            _ => InstallSlot::A,
        };
        match created {
            Ok(_) => (UpdateStage::Unpacking(s), UpdateAction::Unpack(s)),
            Err(e) => (UpdateStage::Finished, UpdateAction::Finish(Err(e))),
        }
    }

    /// After the tarball was unpacked (or not): switch to the new slot.
    pub fn unpacked(self, unpacked: Result<(), Error>) -> (r: (UpdateStage, UpdateAction))
        requires
            self matches UpdateStage::Unpacking(_),
        ensures
            self matches UpdateStage::Unpacking(s) ==> match unpacked {
                Ok(_) => r == (UpdateStage::Switching, UpdateAction::SwitchTo(s)),
                Err(e) => r == (UpdateStage::Finished, UpdateAction::Finish(Err(e))),
            },
    {
        let s = match self {
            UpdateStage::Unpacking(s) => s,
            _ => InstallSlot::A,
        };
        match unpacked {
            Ok(_) => (UpdateStage::Switching, UpdateAction::SwitchTo(s)),
            Err(e) => (UpdateStage::Finished, UpdateAction::Finish(Err(e))),
        }
    }

    /// After the switch: the update ends with the switch's result.
    pub fn switched(self, switched: Result<(), Error>) -> (r: (UpdateStage, UpdateAction))
        requires
            self == UpdateStage::Switching,
        ensures
            r == (UpdateStage::Finished, UpdateAction::Finish(switched)),
    {
        (UpdateStage::Finished, UpdateAction::Finish(switched))
    }
}

impl Installation {
    /// Begins an update to a release satisfying `req`; an installation that
    /// already satisfies it is left alone.
    pub fn update(&self, req: &VersionRequirement) -> (r: (UpdateStage, UpdateAction))
        ensures
            if semver_req_matches(req@, self.manifest.version@) {
                r == (UpdateStage::Finished, UpdateAction::Finish(Ok(())))
            } else {
                &&& r.0 == UpdateStage::ListingTags
                &&& r.1 matches UpdateAction::ListTags { owner, repo }
                &&& owner@ == self.manifest.distribution.owner@
                &&& repo@ == self.manifest.distribution.repo@
            },
    {
        if self.is_current(req) {
            (UpdateStage::Finished, UpdateAction::Finish(Ok(())))
        } else {
            (
                UpdateStage::ListingTags,
                UpdateAction::ListTags {
                    owner: self.manifest.distribution.owner.clone(),
                    repo: self.manifest.distribution.repo.clone(),
                },
            )
        }
    }

    /// Begins switching to the installation in `to`, whose files are in place.
    pub fn switch_installations(&self, to: InstallSlot) -> (r: (SwitchStage, SwitchAction))
        ensures
            r == (SwitchStage::ProbingSlots(to), SwitchAction::ProbeSlots),
    {
        (SwitchStage::ProbingSlots(to), SwitchAction::ProbeSlots)
    }

    /// Begins starting the server with `npm run selfhost` in the active slot.
    pub fn start(&self) -> (r: (ServerStage, ServerAction))
        ensures
            r == (ServerStage::CreatingVolumes, ServerAction::CreateVolumes),
    {
        (ServerStage::CreatingVolumes, ServerAction::CreateVolumes)
    }

    /// Begins stopping the server with `npm run teardown` in the active slot.
    pub fn stop(&self) -> (r: (ServerStage, ServerAction))
        ensures
            r == (ServerStage::ProbingSlots(ServerScript::Teardown), ServerAction::ProbeSlots),
    {
        (ServerStage::ProbingSlots(ServerScript::Teardown), ServerAction::ProbeSlots)
    }
}

} // verus!
