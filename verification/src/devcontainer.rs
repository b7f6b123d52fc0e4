//! Devcontainers among the containers that Docker reports: which containers
//! are devcontainers, what is read from each, and how one is shown.

use vstd::prelude::*;
use vstd::string::*;

verus! {

/// The label that holds the host folder a devcontainer was opened from.
pub const LOCAL_FOLDER_LABEL: &'static str = "devcontainer.local_folder";

/// The label that holds a devcontainer's JSON metadata.
pub const METADATA_LABEL: &'static str = "devcontainer.metadata";

/// A Docker client.
#[verifier::external_type_specification]
#[verifier::external_body]
pub struct ExDocker(bollard::Docker);

/// The state of a container, as Docker reports it.
#[derive(Clone, Copy, Debug, PartialEq, Eq, Structural)]
pub enum ContainerState {
    Empty,
    Created,
    Running,
    Paused,
    Restarting,
    Exited,
    Removing,
    Dead,
}

/// A mount of a container: a host source mounted at a container destination.
#[derive(Clone, Debug)]
pub struct MountPoint {
    pub source: Option<String>,
    pub destination: Option<String>,
}

/// What Docker reports of a container when it lists containers; `labels`
/// holds the container's labels as (key, value) pairs.
#[derive(Clone, Debug)]
pub struct ContainerSummary {
    pub id: Option<String>,
    pub names: Option<Vec<String>>,
    pub labels: Option<Vec<(String, String)>>,
    pub mounts: Option<Vec<MountPoint>>,
    pub state: Option<ContainerState>,
}

/// The part of a devcontainer's metadata that is read: the user that
/// commands run as.
#[derive(Clone, Debug)]
pub struct DevcontainerMetadata {
    pub remote_user: String,
}

/// A devcontainer.
#[derive(Clone, Debug)]
pub struct Devcontainer<'a> {
    /// The id of the devcontainer.
    pub id: String,
    /// The name of the devcontainer.
    pub name: String,
    /// If the devcontainer is running.
    pub running: bool,
    /// The path to the devcontainer. (host)
    pub path: String,
    /// The workspace folder of the devcontainer. (container)
    pub workspace: String,
    /// The user to use in the devcontainer.
    pub user: String,
    /// The docker client.
    pub docker: &'a bollard::Docker,
}

/// The values of a devcontainer's fields, apart from its client.
pub struct DevcontainerView {
    pub id: Seq<char>,
    pub name: Seq<char>,
    pub running: bool,
    pub path: Seq<char>,
    pub workspace: Seq<char>,
    pub user: Seq<char>,
}

impl<'a> View for Devcontainer<'a> {
    type V = DevcontainerView;

    open spec fn view(&self) -> DevcontainerView {
        DevcontainerView {
            id: self.id@,
            name: self.name@,
            running: self.running,
            path: self.path@,
            workspace: self.workspace@,
            user: self.user@,
        }
    }
}

/// The value of an outcome of reading a container.
pub open spec fn outcome_view(out: Option<Devcontainer>) -> Option<DevcontainerView> {
    match out {
        Some(d) => Some(d@),
        None => None,
    }
}

// ---------------------------------------------------------------------------
// What is read from a container.
// ---------------------------------------------------------------------------

/// `s` without its leading `/` characters.
pub open spec fn trim_leading_slashes(s: Seq<char>) -> Seq<char>
    decreases s.len(),
{
    if s.len() > 0 && s[0] == '/' {
        trim_leading_slashes(s.drop_first())
    } else {
        s
    }
}

/// The value of the first label whose key is `key`.
pub open spec fn label_value(labels: Seq<(String, String)>, key: Seq<char>) -> Option<String>
    decreases labels.len(),
{
    if labels.len() == 0 {
        None
    } else if labels[0].0@ == key {
        Some(labels[0].1)
    } else {
        label_value(labels.drop_first(), key)
    }
}

/// The destination of the first mount whose source is `path` and that has a
/// destination.
pub open spec fn workspace_of(mounts: Seq<MountPoint>, path: Seq<char>) -> Option<String>
    decreases mounts.len(),
{
    if mounts.len() == 0 {
        None
    } else {
        match (mounts[0].source, mounts[0].destination) {
            (Some(s), Some(d)) if s@ == path => Some(d),
            _ => workspace_of(mounts.drop_first(), path),
        }
    }
}

/// What a devcontainer is made of, apart from its user.
pub struct SummaryParts {
    pub id: String,
    pub name: Seq<char>,
    pub path: String,
    pub workspace: String,
    pub metadata: String,
    pub running: bool,
}

/// Whether a container is running.
pub open spec fn is_running(state: Option<ContainerState>) -> bool {
    state == Some(ContainerState::Running)
}

/// What a devcontainer is made of, if the container has all of it: an id, a
/// first name (shown without its leading slashes), a local-folder label, a
/// mount of that folder with a destination (the workspace), and a metadata
/// label.
pub open spec fn summary_parts(c: ContainerSummary) -> Option<SummaryParts> {
    match (c.id, c.names, c.labels, c.mounts) {
        (Some(id), Some(names), Some(labels), Some(mounts)) => {
            if names@.len() == 0 {
                None
            } else {
                match label_value(labels@, LOCAL_FOLDER_LABEL@) {
                    None => None,
                    Some(path) => match workspace_of(mounts@, path@) {
                        None => None,
                        Some(workspace) => match label_value(labels@, METADATA_LABEL@) {
                            None => None,
                            Some(metadata) => Some(
                                SummaryParts {
                                    id,
                                    name: trim_leading_slashes(names@[0]@),
                                    path,
                                    workspace,
                                    metadata,
                                    running: is_running(c.state),
                                },
                            ),
                        },
                    },
                }
            }
        },
        _ => None,
    }
}

/// `d` is the devcontainer made of `p`, the client `docker` and the user `user`.
pub open spec fn made_of(d: Devcontainer, p: SummaryParts, docker: &bollard::Docker, user: String) -> bool {
    &&& d.id == p.id
    &&& d.name@ == p.name
    &&& d.running == p.running
    &&& d.path == p.path
    &&& d.workspace == p.workspace
    &&& d.user == user
    &&& d.docker == docker
}

/// `out` is a possible outcome of reading container `c` as a devcontainer,
/// with `parse` reading the metadata label: nothing when a part is missing;
/// otherwise what `parse` gave: nothing, or the devcontainer with its user.
pub open spec fn summary_outcome<F: Fn(&String) -> Option<DevcontainerMetadata>>(
    docker: &bollard::Docker,
    c: ContainerSummary,
    parse: F,
    out: Option<Devcontainer>,
) -> bool {
    match summary_parts(c) {
        None => out is None,
        Some(p) => match out {
            None => call_ensures(parse, (&p.metadata,), None),
            Some(d) => made_of(d, p, docker, d.user) && call_ensures(
                parse,
                (&p.metadata,),
                Some(DevcontainerMetadata { remote_user: d.user }),
            ),
        },
    }
}


/// The devcontainers among a sequence of outcomes, in order.
pub open spec fn present_devcontainers<'a>(outs: Seq<Option<Devcontainer<'a>>>) -> Seq<Devcontainer<'a>>
    decreases outs.len(),
{
    if outs.len() == 0 {
        Seq::empty()
    } else {
        let rest = present_devcontainers(outs.drop_last());
        match outs.last() {
            Some(d) => rest.push(d),
            None => rest,
        }
    }
}

/// Whether two host paths name the same path as `std::path::Path` compares
/// them (component by component).
pub uninterp spec fn paths_equal(a: Seq<char>, b: Seq<char>) -> bool;

/// An outcome that a search for `path` passes over: not a devcontainer at
/// `path`, so in particular not one whose path is written as `path`.
pub open spec fn passed_over(out: Option<Devcontainer>, path: Seq<char>) -> bool {
    match out {
        Some(d) => !paths_equal(d.path@, path) && d.path@ != path,
        None => true,
    }
}


/// `outs` are the outcomes of reading each of `containers` in order, and
/// `found` the devcontainers among them.
pub open spec fn collect_outcome<'a, F: Fn(&String) -> Option<DevcontainerMetadata>>(
    docker: &'a bollard::Docker,
    containers: Seq<ContainerSummary>,
    parse: F,
    outs: Seq<Option<Devcontainer<'a>>>,
    found: Seq<Devcontainer<'a>>,
) -> bool {
    &&& outs.len() == containers.len()
    &&& forall|i: int|
        0 <= i < outs.len() ==> #[trigger] summary_outcome(docker, containers[i], parse, outs[i])
    &&& found == present_devcontainers(outs)
}

/// `parse` gives one result for each input.
pub open spec fn deterministic<F: Fn(&String) -> Option<DevcontainerMetadata>>(parse: F) -> bool {
    forall|s: &String, a: Option<DevcontainerMetadata>, b: Option<DevcontainerMetadata>|
        call_ensures(parse, (s,), a) && call_ensures(parse, (s,), b) ==> a == b
}


/// `outs` are the outcomes of reading `containers` in order until the first
/// devcontainer at `path`, and `r` is that devcontainer, or nothing when no
/// container is one.
pub open spec fn search_outcome<'a, F: Fn(&String) -> Option<DevcontainerMetadata>>(
    docker: &'a bollard::Docker,
    containers: Seq<ContainerSummary>,
    path: Seq<char>,
    parse: F,
    outs: Seq<Option<Devcontainer<'a>>>,
    r: Option<Devcontainer<'a>>,
) -> bool {
    &&& outs.len() <= containers.len()
    &&& forall|i: int|
        0 <= i < outs.len() ==> #[trigger] summary_outcome(docker, containers[i], parse, outs[i])
    &&& match r {
        None => {
            &&& outs.len() == containers.len()
            &&& forall|i: int| 0 <= i < outs.len() ==> passed_over(#[trigger] outs[i], path)
        },
        Some(d) => {
            &&& outs.len() > 0
            &&& outs.last() == Some(d)
            &&& paths_equal(d.path@, path)
            &&& forall|i: int| 0 <= i < outs.len() - 1 ==> passed_over(#[trigger] outs[i], path)
        },
    }
}


/// The mark that shows whether a devcontainer is running.
pub open spec fn status_mark(running: bool) -> Seq<char> {
    if running {
        "\u{1F7E2}"@
    } else {
        "\u{1F534}"@
    }
}

/// How a devcontainer is shown: on one line with its id and path, or, in the
/// detailed form, with its name, path, workspace and user on lines of their own.
pub open spec fn display_model(d: Devcontainer, detailed: bool) -> Seq<char> {
    if detailed {
        status_mark(d.running) + " Devcontainer "@ + d.id@ + "\n  Name: "@ + d.name@ + "\n  Path: "@
            + d.path@ + "\n  Workspace: "@ + d.workspace@ + "\n  User: "@ + d.user@
    } else {
        status_mark(d.running) + " Devcontainer "@ + d.id@ + " ("@ + d.path@ + ")"@
    }
}

// ---------------------------------------------------------------------------
// Reading a container.
// ---------------------------------------------------------------------------

/// `s` without its leading `/` characters.
pub fn trim_start_slashes(s: &str) -> (r: String)
    ensures
        r@ == trim_leading_slashes(s@),
{
    let n = s.unicode_len();
    let mut k: usize = 0;
    assert(s@.subrange(0, n as int) == s@);
    while k < n && s.get_char(k) == '/'
        invariant
            n == s@.len(),
            k <= n,
            trim_leading_slashes(s@) == trim_leading_slashes(s@.subrange(k as int, n as int)),
        decreases n - k,
    {
        assert(s@.subrange(k as int, n as int).drop_first() == s@.subrange(k + 1, n as int));
        k += 1;
    }
    String::from_str(s.substring_char(k, n))
}

/// The value of the first label whose key is `key`.
fn find_label(labels: &Vec<(String, String)>, key: &str) -> (r: Option<String>)
    ensures
        r == label_value(labels@, key@),
{
    let wanted = String::from_str(key);
    let mut i: usize = 0;
    assert(labels@.subrange(0, labels@.len() as int) == labels@);
    while i < labels.len()
        invariant
            i <= labels@.len(),
            wanted@ == key@,
            label_value(labels@, key@) == label_value(labels@.subrange(i as int, labels@.len() as int), key@),
        decreases labels@.len() - i,
    {
        assert(labels@.subrange(i as int, labels@.len() as int).drop_first() == labels@.subrange(
            i + 1,
            labels@.len() as int,
        ));
        if labels[i].0 == wanted {
            return Some(labels[i].1.clone());
        }
        i += 1;
    }
    None
}

/// The destination of the first mount of `path` that has one.
fn find_workspace(mounts: &Vec<MountPoint>, path: &String) -> (r: Option<String>)
    ensures
        r == workspace_of(mounts@, path@),
{
    let mut i: usize = 0;
    assert(mounts@.subrange(0, mounts@.len() as int) == mounts@);
    while i < mounts.len()
        invariant
            i <= mounts@.len(),
            workspace_of(mounts@, path@) == workspace_of(mounts@.subrange(i as int, mounts@.len() as int), path@),
        decreases mounts@.len() - i,
    {
        assert(mounts@.subrange(i as int, mounts@.len() as int).drop_first() == mounts@.subrange(
            i + 1,
            mounts@.len() as int,
        ));
        let mount = &mounts[i];
        if let Some(source) = &mount.source {
            if *source == *path {
                if let Some(destination) = &mount.destination {
                    return Some(destination.clone());
                }
            }
        }
        i += 1;
    }
    None
}

/// Compares two host paths with `std::path::Path`'s equality, which compares
/// them component by component. The result is given the name [`paths_equal`];
/// of it only the reflexivity of that equality (`Path` is `Eq`) is stated: two
/// equal strings are equal paths. How components are normalised is not stated.
#[verifier::external_body]
fn same_path(a: &str, b: &str) -> (r: bool)
    ensures
        r == paths_equal(a@, b@),
        a@ == b@ ==> r,
{
    std::path::Path::new(a) == std::path::Path::new(b)
}

/// The label filter that selects the devcontainers opened from `path`:
/// `devcontainer.local_folder=` followed by the path.
pub fn local_folder_filter(path: &str) -> (r: String)
    ensures
        r@ == LOCAL_FOLDER_LABEL@ + "="@ + path@,
{
    let mut r = String::from_str(LOCAL_FOLDER_LABEL);
    r.append("=");
    r.append(path);
    r
}

impl<'a> Devcontainer<'a> {
    /// How this devcontainer is shown: one line with its id and path, or,
    /// when `detailed`, its name, path, workspace and user on lines of their own.
    pub fn display_string(&self, detailed: bool) -> (r: String)
        ensures
            r@ == display_model(*self, detailed),
    {
        let mut r = if self.running {
            String::from_str("\u{1F7E2}")
        } else {
            String::from_str("\u{1F534}")
        };
        r.append(" Devcontainer ");
        r.append(self.id.as_str());
        if detailed {
            r.append("\n  Name: ");
            r.append(self.name.as_str());
            r.append("\n  Path: ");
            r.append(self.path.as_str());
            r.append("\n  Workspace: ");
            r.append(self.workspace.as_str());
            r.append("\n  User: ");
            r.append(self.user.as_str());
        } else {
            r.append(" (");
            r.append(self.path.as_str());
            r.append(")");
        }
        r
    }

    /// Create a [`Devcontainer`] from given [`ContainerSummary`], reading its
    /// metadata label with `parse_metadata`.
    pub fn from_container_summary<F: Fn(&String) -> Option<DevcontainerMetadata>>(
        docker: &'a bollard::Docker,
        container: ContainerSummary,
        parse_metadata: F,
    ) -> (r: Option<Self>)
        requires
            forall|s: &String| call_requires(parse_metadata, (s,)),
        ensures
            summary_outcome(docker, container, parse_metadata, r),
    {
        let running = match container.state {
            Some(ContainerState::Running) => true,
            _ => false,
        };
        let id = match container.id {
            Some(id) => id,
            None => {
                return None;
            },
        };
        let names = match container.names {
            Some(names) => names,
            None => {
                return None;
            },
        };
        if names.len() == 0 {
            return None;
        }
        let name = trim_start_slashes(names[0].as_str());
        let labels = match container.labels {
            Some(labels) => labels,
            None => {
                return None;
            },
        };
        let path = match find_label(&labels, LOCAL_FOLDER_LABEL) {
            Some(path) => path,
            None => {
                return None;
            },
        };
        let mounts = match container.mounts {
            Some(mounts) => mounts,
            None => {
                return None;
            },
        };
        let workspace = match find_workspace(&mounts, &path) {
            Some(workspace) => workspace,
            None => {
                return None;
            },
        };
        let metadata_json = match find_label(&labels, METADATA_LABEL) {
            Some(json) => json,
            None => {
                return None;
            },
        };
        let metadata = match parse_metadata(&metadata_json) {
            Some(metadata) => metadata,
            None => {
                return None;
            },
        };
        let user = metadata.remote_user;
        Some(Devcontainer { id, name, running, path, workspace, user, docker })
    }

    /// The devcontainers among `containers`, in order: each container read
    /// with [`Devcontainer::from_container_summary`], those that are not
    /// devcontainers left out.
    pub fn from_summaries<F: Fn(&String) -> Option<DevcontainerMetadata> + Copy>(
        docker: &'a bollard::Docker,
        containers: Vec<ContainerSummary>,
        parse_metadata: F,
    ) -> (r: Vec<Self>)
        requires
            forall|s: &String| call_requires(parse_metadata, (s,)),
        ensures
            exists|outs: Seq<Option<Devcontainer<'a>>>|
                #[trigger] collect_outcome(docker, containers@, parse_metadata, outs, r@),
    {
        let ghost all = containers@;
        let n = containers.len();
        let mut rest = containers;
        let mut found: Vec<Devcontainer<'a>> = Vec::new();
        let ghost mut outs: Seq<Option<Devcontainer<'a>>> = Seq::empty();
        let mut i: usize = 0;
        while i < n
            invariant
                n == all.len(),
                i <= n,
                rest@ == all.subrange(i as int, n as int),
                outs.len() == i,
                forall|j: int|
                    0 <= j < i ==> #[trigger] summary_outcome(docker, all[j], parse_metadata, outs[j]),
                found@ == present_devcontainers(outs),
                forall|s: &String| call_requires(parse_metadata, (s,)),
            decreases n - i,
        {
            let container = rest.remove(0);
            let out = Self::from_container_summary(docker, container, parse_metadata);
            proof {
                let ghost before = outs;
                outs = outs.push(out);
                assert(outs.drop_last() == before);
            }
            match out {
                Some(d) => found.push(d),
                None => {},
            }
            i += 1;
        }
        assert(collect_outcome(docker, all, parse_metadata, outs, found@));
        found
    }

    /// The first devcontainer among `containers` whose path is `path`; the
    /// containers after it are not read.
    #[verifier::loop_isolation(false)]
    pub fn find_at_path<F: Fn(&String) -> Option<DevcontainerMetadata> + Copy>(
        docker: &'a bollard::Docker,
        containers: Vec<ContainerSummary>,
        path: &str,
        parse_metadata: F,
    ) -> (r: Option<Self>)
        requires
            forall|s: &String| call_requires(parse_metadata, (s,)),
        ensures
            exists|outs: Seq<Option<Devcontainer<'a>>>|
                #[trigger] search_outcome(docker, containers@, path@, parse_metadata, outs, r),
    {
        let ghost all = containers@;
        let n = containers.len();
        let mut rest = containers;
        let ghost mut outs: Seq<Option<Devcontainer<'a>>> = Seq::empty();
        let mut i: usize = 0;
        while i < n
            invariant
                n == all.len(),
                i <= n,
                rest@ == all.subrange(i as int, n as int),
                outs.len() == i,
                forall|j: int|
                    0 <= j < i ==> #[trigger] summary_outcome(docker, all[j], parse_metadata, outs[j]),
                forall|j: int| 0 <= j < i ==> passed_over(#[trigger] outs[j], path@),
                forall|s: &String| call_requires(parse_metadata, (s,)),
            decreases n - i,
        {
            let container = rest.remove(0);
            let out = Self::from_container_summary(docker, container, parse_metadata);
            proof {
                outs = outs.push(out);
            }
            if let Some(d) = out {
                if same_path(d.path.as_str(), path) {
                    assert(outs.last() == Some(d));
                    assert(search_outcome(docker, all, path@, parse_metadata, outs, Some(d)));
                    return Some(d);
                }
            }
            i += 1;
        }
        assert(search_outcome(docker, all, path@, parse_metadata, outs, None));
        None
    }
}

} // verus!

verus! {

// ---------------------------------------------------------------------------
// Laws of finding devcontainers.
// ---------------------------------------------------------------------------

/// No two labels have the same key, as in the map of labels that Docker
/// reports.
pub open spec fn label_keys_distinct(labels: Seq<(String, String)>) -> bool {
    forall|i: int, j: int|
        0 <= i < labels.len() && 0 <= j < labels.len() && i != j ==> #[trigger] labels[i].0@
            != #[trigger] labels[j].0@
}

/// When no two labels share a key, reading a label is a map lookup: it gives
/// the value of the one label with that key, and nothing when there is none.
pub proof fn label_value_is_map_lookup(labels: Seq<(String, String)>, key: Seq<char>)
    requires
        label_keys_distinct(labels),
    ensures
        forall|i: int|
            0 <= i < labels.len() && #[trigger] labels[i].0@ == key ==> label_value(labels, key)
                == Some(labels[i].1),
        label_value(labels, key) is None <==> forall|i: int|
            0 <= i < labels.len() ==> #[trigger] labels[i].0@ != key,
    decreases labels.len(),
{
    if labels.len() > 0 {
        let rest = labels.drop_first();
        assert forall|i: int, j: int|
            0 <= i < rest.len() && 0 <= j < rest.len() && i != j implies #[trigger] rest[i].0@
            != #[trigger] rest[j].0@ by {
            assert(rest[i] == labels[i + 1]);
            assert(rest[j] == labels[j + 1]);
        }
        label_value_is_map_lookup(rest, key);
        assert forall|i: int|
            0 <= i < labels.len() && #[trigger] labels[i].0@ == key implies label_value(labels, key)
                == Some(labels[i].1) by {
            if i > 0 {
                assert(labels[0].0@ != labels[i].0@);
                assert(rest[i - 1] == labels[i]);
            }
        }
        if label_value(labels, key) is None {
            assert forall|i: int| 0 <= i < labels.len() implies #[trigger] labels[i].0@ != key by {
                if i > 0 {
                    assert(rest[i - 1] == labels[i]);
                }
            }
        }
        if forall|i: int| 0 <= i < labels.len() ==> #[trigger] labels[i].0@ != key {
            assert forall|i: int| 0 <= i < rest.len() implies #[trigger] rest[i].0@ != key by {
                assert(rest[i] == labels[i + 1]);
            }
        }
    }
}

/// With a metadata reader that gives one result per input, reading a
/// container has a single outcome (up to the identity of its strings).
pub proof fn summary_outcome_is_unique<'a, F: Fn(&String) -> Option<DevcontainerMetadata>>(
    docker: &'a bollard::Docker,
    c: ContainerSummary,
    parse: F,
    a: Option<Devcontainer<'a>>,
    b: Option<Devcontainer<'a>>,
)
    requires
        deterministic(parse),
        summary_outcome(docker, c, parse, a),
        summary_outcome(docker, c, parse, b),
    ensures
        outcome_view(a) == outcome_view(b),
{
    if let Some(p) = summary_parts(c) {
        match (a, b) {
            (Some(x), Some(y)) => {
                let mx = Some(DevcontainerMetadata { remote_user: x.user });
                let my = Some(DevcontainerMetadata { remote_user: y.user });
                assert(call_ensures(parse, (&p.metadata,), mx));
                assert(call_ensures(parse, (&p.metadata,), my));
                assert(mx == my);
            },
            (Some(x), None) => {
                let mx = Some(DevcontainerMetadata { remote_user: x.user });
                assert(call_ensures(parse, (&p.metadata,), mx));
                assert(call_ensures(parse, (&p.metadata,), None::<DevcontainerMetadata>));
            },
            (None, Some(y)) => {
                let my = Some(DevcontainerMetadata { remote_user: y.user });
                assert(call_ensures(parse, (&p.metadata,), my));
                assert(call_ensures(parse, (&p.metadata,), None::<DevcontainerMetadata>));
            },
            (None, None) => {},
        }
    }
}

/// The devcontainers among some outcomes are exactly the outcomes that are
/// devcontainers.
proof fn present_devcontainers_contains<'a>(outs: Seq<Option<Devcontainer<'a>>>, d: Devcontainer<'a>)
    ensures
        present_devcontainers(outs).contains(d) <==> exists|k: int|
            0 <= k < outs.len() && #[trigger] outs[k] == Some(d),
    decreases outs.len(),
{
    if outs.len() > 0 {
        let rest = outs.drop_last();
        let pr = present_devcontainers(rest);
        let po = present_devcontainers(outs);
        present_devcontainers_contains(rest, d);
        if exists|k: int| 0 <= k < outs.len() && #[trigger] outs[k] == Some(d) {
            let k = choose|k: int| 0 <= k < outs.len() && #[trigger] outs[k] == Some(d);
            if k < outs.len() - 1 {
                assert(rest[k] == Some(d));
                assert(pr.contains(d));
                let j = choose|j: int| 0 <= j < pr.len() && pr[j] == d;
                match outs.last() {
                    Some(x) => {
                        assert(po == pr.push(x));
                        assert(po[j] == d);
                    },
                    None => {
                        assert(po == pr);
                    },
                }
                assert(po.contains(d));
            } else {
                assert(po == pr.push(d));
                assert(po[po.len() - 1] == d);
                assert(po.contains(d));
            }
        }
        if po.contains(d) {
            let j = choose|j: int| 0 <= j < po.len() && po[j] == d;
            match outs.last() {
                Some(x) => {
                    assert(po == pr.push(x));
                    if j == po.len() - 1 {
                        assert(outs[outs.len() - 1] == Some(d));
                    } else {
                        assert(pr[j] == d);
                        assert(pr.contains(d));
                        let k = choose|k: int| 0 <= k < rest.len() && #[trigger] rest[k] == Some(d);
                        assert(outs[k] == Some(d));
                    }
                },
                None => {
                    assert(po == pr);
                    assert(pr.contains(d));
                    let k = choose|k: int| 0 <= k < rest.len() && #[trigger] rest[k] == Some(d);
                    assert(outs[k] == Some(d));
                },
            }
        }
    }
}

/// Resolving a path finds a devcontainer exactly when one of the listed
/// devcontainers is at that path, and what it finds is one of them: with a
/// metadata reader that gives one result per input, the outcome of
/// [`Devcontainer::find_at_path`] agrees with that of
/// [`Devcontainer::from_summaries`] on the same containers. In particular,
/// when a listed devcontainer's path is written exactly as the query, the
/// search finds a devcontainer.
pub proof fn found_devcontainer_is_listed<'a, F: Fn(&String) -> Option<DevcontainerMetadata>>(
    docker: &'a bollard::Docker,
    containers: Seq<ContainerSummary>,
    path: Seq<char>,
    parse: F,
    search: Seq<Option<Devcontainer<'a>>>,
    r: Option<Devcontainer<'a>>,
    listing: Seq<Option<Devcontainer<'a>>>,
    found: Seq<Devcontainer<'a>>,
)
    requires
        deterministic(parse),
        search_outcome(docker, containers, path, parse, search, r),
        collect_outcome(docker, containers, parse, listing, found),
    ensures
        r matches Some(d) ==> paths_equal(d.path@, path) && exists|e: Devcontainer<'a>|
            #[trigger] found.contains(e) && e@ == d@,
        r is None ==> forall|e: Devcontainer<'a>| #[trigger] found.contains(e) ==> !paths_equal(
            e.path@,
            path,
        ) && e.path@ != path,
{
    assert forall|i: int| 0 <= i < search.len() implies outcome_view(search[i]) == outcome_view(
        listing[i],
    ) by {
        assert(summary_outcome(docker, containers[i], parse, search[i]));
        assert(summary_outcome(docker, containers[i], parse, listing[i]));
        summary_outcome_is_unique(docker, containers[i], parse, search[i], listing[i]);
    }
    match r {
        Some(d) => {
            let k = search.len() - 1;
            assert(outcome_view(search[k]) == outcome_view(listing[k]));
            let e = listing[k].unwrap();
            assert(listing[k] == Some(e));
            present_devcontainers_contains(listing, e);
            assert(found.contains(e) && e@ == d@);
        },
        None => {
            assert forall|e: Devcontainer<'a>| #[trigger] found.contains(e) implies !paths_equal(
                e.path@,
                path,
            ) && e.path@ != path by {
                present_devcontainers_contains(listing, e);
                let k = choose|k: int| 0 <= k < listing.len() && #[trigger] listing[k] == Some(e);
                assert(outcome_view(search[k]) == outcome_view(listing[k]));
                assert(passed_over(search[k], path));
            }
        },
    }
}

} // verus!

verus! {

// ---------------------------------------------------------------------------
// The workspace, and how a devcontainer is shown.
// ---------------------------------------------------------------------------

/// `mount` mounts the host folder `path` somewhere: its source is `path` and
/// it has a destination.
pub open spec fn mounts_folder(mount: MountPoint, path: Seq<char>) -> bool {
    match (mount.source, mount.destination) {
        (Some(s), Some(_)) => s@ == path,
        _ => false,
    }
}

/// Looking for the workspace finds the destination of the first mount of the
/// folder, wherever it stands in the list.
proof fn lemma_workspace_of_first(mounts: Seq<MountPoint>, path: Seq<char>, i: int)
    requires
        0 <= i < mounts.len(),
        mounts_folder(mounts[i], path),
        forall|j: int| 0 <= j < i ==> !mounts_folder(#[trigger] mounts[j], path),
    ensures
        workspace_of(mounts, path) == mounts[i].destination,
    decreases i,
{
    if i > 0 {
        let rest = mounts.drop_first();
        assert(!mounts_folder(mounts[0], path));
        assert forall|j: int| 0 <= j < i - 1 implies !mounts_folder(#[trigger] rest[j], path) by {
            assert(rest[j] == mounts[j + 1]);
        }
        assert(rest[i - 1] == mounts[i]);
        lemma_workspace_of_first(rest, path, i - 1);
    }
}

/// A container with an id, a name, a local-folder label, a metadata label and
/// a mount of that folder with a destination (at any place in its mount list,
/// the first included) is read as a devcontainer whenever the metadata reader
/// gives a user: its path is the folder, its workspace is the destination of
/// the first such mount in the whole list, and its user is the one read from
/// the metadata label. It is read as nothing only when the reader gives
/// nothing for that label.
pub proof fn workspace_is_first_mount_of_folder<'a, F: Fn(&String) -> Option<DevcontainerMetadata>>(
    docker: &'a bollard::Docker,
    c: ContainerSummary,
    parse: F,
    out: Option<Devcontainer<'a>>,
    labels: Vec<(String, String)>,
    folder: String,
    metadata: String,
    mounts: Vec<MountPoint>,
    i: int,
)
    requires
        c.id is Some,
        c.names matches Some(names) && names@.len() > 0,
        c.labels == Some(labels),
        label_value(labels@, LOCAL_FOLDER_LABEL@) == Some(folder),
        label_value(labels@, METADATA_LABEL@) == Some(metadata),
        c.mounts == Some(mounts),
        0 <= i < mounts@.len(),
        mounts_folder(mounts@[i], folder@),
        forall|j: int| 0 <= j < i ==> !mounts_folder(#[trigger] mounts@[j], folder@),
        summary_outcome(docker, c, parse, out),
    ensures
        out matches Some(d) ==> {
            &&& Some(d.workspace) == mounts@[i].destination
            &&& d.path == folder
            &&& Some(d.id) == c.id
            &&& call_ensures(parse, (&metadata,), Some(DevcontainerMetadata { remote_user: d.user }))
        },
        out is None ==> call_ensures(parse, (&metadata,), None::<DevcontainerMetadata>),
{
    lemma_workspace_of_first(mounts@, folder@, i);
}

/// Whatever the form, the shown text starts with the running mark (a green
/// circle exactly when the devcontainer is running, a red one otherwise),
/// then ` Devcontainer ` and the id; the compact and the detailed forms share
/// that beginning.
pub proof fn display_starts_with_running_mark(d: Devcontainer, detailed: bool)
    ensures
        ({
            let mark = if d.running {
                "\u{1F7E2}"@
            } else {
                "\u{1F534}"@
            };
            let head = mark + " Devcontainer "@ + d.id@;
            &&& display_model(d, detailed).len() >= head.len()
            &&& display_model(d, detailed).subrange(0, head.len() as int) == head
            &&& display_model(d, true).subrange(0, head.len() as int) == display_model(
                d,
                false,
            ).subrange(0, head.len() as int)
        }),
{
    let mark = if d.running {
        "\u{1F7E2}"@
    } else {
        "\u{1F534}"@
    };
    let head = mark + " Devcontainer "@ + d.id@;
    let t = "\n  Name: "@ + d.name@ + "\n  Path: "@ + d.path@ + "\n  Workspace: "@ + d.workspace@
        + "\n  User: "@ + d.user@;
    let c = " ("@ + d.path@ + ")"@;
    assert(display_model(d, true) =~= head + t);
    assert(display_model(d, false) =~= head + c);
    assert((head + t).subrange(0, head.len() as int) =~= head);
    assert((head + c).subrange(0, head.len() as int) =~= head);
}

} // verus!
