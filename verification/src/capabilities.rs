//! What an instance is allowed to touch: its input, its output sinks, the
//! environment bindings it may read and the directories it may open. Nothing
//! is granted that is not named here.

use crate::http::allows_outbound;
use crate::http::HttpContext;
use vstd::prelude::*;

verus! {

/// The largest number of directory grants one bundle can hold: every grant
/// needs a handle of its own, beside those of the streams, the environment
/// and the network.
pub const MAX_DIRECTORY_GRANTS: usize = 0xFFFF_FFFB;

/// A host resource that an instance may be granted, as the capability
/// table knows it.
#[derive(Clone, Copy, Debug, PartialEq, Eq, Structural)]
pub enum Capability {
    /// The input stream.
    Stdin,
    /// The primary output sink.
    Stdout,
    /// The diagnostic output sink.
    Stderr,
    /// The allow-list of environment bindings.
    Environment,
    /// A filesystem root, by its position among the grants.
    Directory { grant: usize },
    /// Outbound network requests.
    OutboundHttp,
}

/// The resources that a bundle with `grants` directory grants stands for, in
/// the order in which an instance registers them: the three streams, the
/// environment, each directory, and the network where it is allowed.
pub open spec fn capability_list(grants: nat, outbound_http: bool) -> Seq<Capability> {
    seq![Capability::Stdin, Capability::Stdout, Capability::Stderr, Capability::Environment]
        + Seq::new(grants, |i: int| Capability::Directory { grant: i as usize }) + if outbound_http {
        seq![Capability::OutboundHttp]
    } else {
        Seq::empty()
    }
}

/// What a guest may do with a granted directory.
#[derive(Clone, Copy, Debug, PartialEq, Eq, Structural)]
pub struct DirPerms {
    /// List and look up entries.
    pub read: bool,
    /// Create, rename and remove entries.
    pub mutate: bool,
}

impl DirPerms {
    /// Every permission on the directory.
    pub fn all() -> (perms: Self)
        ensures
            perms == (DirPerms { read: true, mutate: true }),
    {
        DirPerms { read: true, mutate: true }
    }

    /// Reading only.
    pub fn read_only() -> (perms: Self)
        ensures
            perms == (DirPerms { read: true, mutate: false }),
    {
        DirPerms { read: true, mutate: false }
    }
}

/// What a guest may do with the files below a granted directory.
#[derive(Clone, Copy, Debug, PartialEq, Eq, Structural)]
pub struct FilePerms {
    /// Read file contents.
    pub read: bool,
    /// Change file contents.
    pub write: bool,
}

impl FilePerms {
    /// Every permission on the files.
    pub fn all() -> (perms: Self)
        ensures
            perms == (FilePerms { read: true, write: true }),
    {
        FilePerms { read: true, write: true }
    }

    /// Reading only.
    pub fn read_only() -> (perms: Self)
        ensures
            perms == (FilePerms { read: true, write: false }),
    {
        FilePerms { read: true, write: false }
    }
}

/// One directory of the host, as the guest is to see it.
#[derive(Clone, Debug, PartialEq, Eq)]
pub struct DirectoryGrant {
    /// Where the directory is on the host.
    pub host_path: String,
    /// Under which path the guest finds it.
    pub guest_path: String,
    pub dir_perms: DirPerms,
    pub file_perms: FilePerms,
}

/// A directory grant as a plain value.
pub struct GrantView {
    pub host_path: Seq<char>,
    pub guest_path: Seq<char>,
    pub dir_perms: DirPerms,
    pub file_perms: FilePerms,
}

impl View for DirectoryGrant {
    type V = GrantView;

    open spec fn view(&self) -> GrantView {
        GrantView {
            host_path: self.host_path@,
            guest_path: self.guest_path@,
            dir_perms: self.dir_perms,
            file_perms: self.file_perms,
        }
    }
}

/// One environment variable that the guest may read.
#[derive(Clone, Debug, PartialEq, Eq)]
pub struct EnvBinding {
    pub name: String,
    pub value: String,
}

impl View for EnvBinding {
    type V = (Seq<char>, Seq<char>);

    open spec fn view(&self) -> (Seq<char>, Seq<char>) {
        (self.name@, self.value@)
    }
}

/// Whether `name` is bound in `env`.
pub open spec fn is_bound(env: Seq<(Seq<char>, Seq<char>)>, name: Seq<char>) -> bool {
    exists|i: int| 0 <= i < env.len() && #[trigger] env[i].0 == name
}

/// Whether no name is bound twice in `env`.
pub open spec fn unique_names(env: Seq<(Seq<char>, Seq<char>)>) -> bool {
    forall|i: int, j: int| 0 <= i < j < env.len() ==> #[trigger] env[i].0 != #[trigger] env[j].0
}

/// `env` with `name` bound to `value`: a name that is bound already keeps
/// its place and gets the new value, a new name goes to the end.
pub open spec fn bind(env: Seq<(Seq<char>, Seq<char>)>, name: Seq<char>, value: Seq<char>) -> Seq<
    (Seq<char>, Seq<char>),
> {
    if is_bound(env, name) {
        env.map_values(
            |b: (Seq<char>, Seq<char>)|
                if b.0 == name {
                    (name, value)
                } else {
                    b
                },
        )
    } else {
        env.push((name, value))
    }
}

/// What `name` is bound to in `env`, if it is bound.
pub open spec fn value_of(env: Seq<(Seq<char>, Seq<char>)>, name: Seq<char>) -> Option<Seq<char>> {
    if is_bound(env, name) {
        Some(env[choose|i: int| 0 <= i < env.len() && #[trigger] env[i].0 == name].1)
    } else {
        None
    }
}

/// A bundle of capabilities as a plain value.
pub struct CapabilitiesView {
    /// The bytes the guest reads from its input stream.
    pub stdin: Seq<u8>,
    /// How many bytes the primary output sink takes.
    pub stdout_capacity: usize,
    /// How many bytes the diagnostic output sink takes.
    pub stderr_capacity: usize,
    /// The environment bindings, in the order in which they were first made.
    pub env: Seq<(Seq<char>, Seq<char>)>,
    /// The directory grants, in the order in which they were made.
    pub grants: Seq<GrantView>,
}

/// The capabilities of one instance.
#[derive(Debug)]
pub struct Capabilities {
    stdin: Vec<u8>,
    stdout_capacity: usize,
    stderr_capacity: usize,
    env: Vec<EnvBinding>,
    grants: Vec<DirectoryGrant>,
}

impl View for Capabilities {
    type V = CapabilitiesView;

    closed spec fn view(&self) -> CapabilitiesView {
        CapabilitiesView {
            stdin: self.stdin@,
            stdout_capacity: self.stdout_capacity,
            stderr_capacity: self.stderr_capacity,
            env: self.env@.map_values(|b: EnvBinding| b@),
            grants: self.grants@.map_values(|g: DirectoryGrant| g@),
        }
    }
}

/// What a bundle of capabilities always satisfies.
pub open spec fn valid_capabilities(caps: CapabilitiesView) -> bool {
    &&& unique_names(caps.env)
    &&& caps.grants.len() <= MAX_DIRECTORY_GRANTS
}

impl Capabilities {
    #[verifier::type_invariant]
    closed spec fn inv(&self) -> bool {
        valid_capabilities(self@)
    }

    /// The bundle that grants the least: empty input, sinks that take
    /// nothing, no binding, no directory.
    pub fn new() -> (caps: Self)
        ensures
            valid_capabilities(caps@),
            caps@ == (CapabilitiesView {
                stdin: Seq::empty(),
                stdout_capacity: 0,
                stderr_capacity: 0,
                env: Seq::empty(),
                grants: Seq::empty(),
            }),
    {
        let caps = Capabilities {
            stdin: Vec::new(),
            stdout_capacity: 0,
            stderr_capacity: 0,
            env: Vec::new(),
            grants: Vec::new(),
        };
        assert(caps@.env =~= Seq::empty());
        assert(caps@.grants =~= Seq::empty());
        caps
    }

    /// The bytes the guest reads from its input stream.
    pub fn stdin(&self) -> (bytes: &Vec<u8>)
        ensures
            bytes@ == self@.stdin,
    {
        &self.stdin
    }

    /// How many bytes the primary output sink takes.
    pub fn stdout_capacity(&self) -> (capacity: usize)
        ensures
            capacity == self@.stdout_capacity,
    {
        self.stdout_capacity
    }

    /// How many bytes the diagnostic output sink takes.
    pub fn stderr_capacity(&self) -> (capacity: usize)
        ensures
            capacity == self@.stderr_capacity,
    {
        self.stderr_capacity
    }

    /// The environment bindings, in order. No name occurs twice.
    pub fn env(&self) -> (bindings: &Vec<EnvBinding>)
        ensures
            bindings@.map_values(|b: EnvBinding| b@) == self@.env,
            unique_names(self@.env),
    {
        proof {
            use_type_invariant(self);
        }
        &self.env
    }

    /// The directory grants, in order.
    pub fn grants(&self) -> (grants: &Vec<DirectoryGrant>)
        ensures
            grants@.map_values(|g: DirectoryGrant| g@) == self@.grants,
            grants@.len() <= MAX_DIRECTORY_GRANTS,
    {
        proof {
            use_type_invariant(self);
        }
        &self.grants
    }

    /// What `name` is bound to. A name that was never bound has no value:
    /// nothing is inherited from the host.
    pub fn env_value(&self, name: &str) -> (value: Option<&String>)
        ensures
            match value {
                Some(v) => Some(v@) == value_of(self@.env, name@),
                None => value_of(self@.env, name@) is None,
            },
    {
        proof {
            use_type_invariant(self);
        }
        let wanted = name.to_string();
        let mut i: usize = 0;
        while i < self.env.len()
            invariant
                i <= self.env.len(),
                wanted@ == name@,
                unique_names(self@.env),
                forall|k: int| 0 <= k < i ==> (#[trigger] self@.env[k]).0 != name@,
            decreases self.env.len() - i,
        {
            assert(self@.env[i as int] == self.env@[i as int]@);
            if self.env[i].name == wanted {
                assert(self@.env[i as int].0 == name@);
                proof {
                    lemma_value_of_unique(self@.env, name@, i as int);
                }
                return Some(&self.env[i].value);
            }
            i += 1;
        }
        None
    }

    /// The resources that this bundle stands for, together with the network
    /// where `http` allows it, in the order in which an instance registers
    /// them.
    pub fn resources(&self, http: HttpContext) -> (list: Vec<Capability>)
        ensures
            list@ == capability_list(self@.grants.len(), allows_outbound(http)),
            list@.len() <= MAX_DIRECTORY_GRANTS + 5,
    {
        proof {
            use_type_invariant(self);
        }
        let mut list: Vec<Capability> = Vec::new();
        list.push(Capability::Stdin);
        list.push(Capability::Stdout);
        list.push(Capability::Stderr);
        list.push(Capability::Environment);
        let ghost fixed = list@;
        let count = self.grants.len();
        let mut i: usize = 0;
        while i < count
            invariant
                i <= count,
                fixed == seq![
                    Capability::Stdin,
                    Capability::Stdout,
                    Capability::Stderr,
                    Capability::Environment,
                ],
                list@ == fixed + Seq::new(i as nat, |k: int| Capability::Directory { grant: k as usize }),
            decreases count - i,
        {
            list.push(Capability::Directory { grant: i });
            i += 1;
            assert(list@ =~= fixed + Seq::new(
                i as nat,
                |k: int| Capability::Directory { grant: k as usize },
            ));
        }
        if http.allows_outbound() {
            list.push(Capability::OutboundHttp);
        }
        assert(list@ =~= capability_list(self@.grants.len(), allows_outbound(http)));
        list
    }

    fn set_stdin(&mut self, bytes: Vec<u8>)
        ensures
            final(self)@ == (CapabilitiesView { stdin: bytes@, ..old(self)@ }),
    {
        proof {
            use_type_invariant(&*self);
        }
        self.stdin = bytes;
    }

    fn set_stdout_capacity(&mut self, capacity: usize)
        ensures
            final(self)@ == (CapabilitiesView { stdout_capacity: capacity, ..old(self)@ }),
    {
        proof {
            use_type_invariant(&*self);
        }
        self.stdout_capacity = capacity;
    }

    fn set_stderr_capacity(&mut self, capacity: usize)
        ensures
            final(self)@ == (CapabilitiesView { stderr_capacity: capacity, ..old(self)@ }),
    {
        proof {
            use_type_invariant(&*self);
        }
        self.stderr_capacity = capacity;
    }

    fn set_env(&mut self, name: &str, value: &str)
        ensures
            final(self)@ == (CapabilitiesView {
                env: bind(old(self)@.env, name@, value@),
                ..old(self)@
            }),
    {
        proof {
            use_type_invariant(&*self);
        }
        let binding = EnvBinding { name: name.to_string(), value: value.to_string() };
        let ghost before = self@.env;
        let mut env: Vec<EnvBinding> = Vec::new();
        core::mem::swap(&mut self.env, &mut env);
        assert(env@.map_values(|b: EnvBinding| b@) == before);
        let mut i: usize = 0;
        let mut found = false;
        while !found && i < env.len()
            invariant
                i <= env.len(),
                env@.map_values(|b: EnvBinding| b@) == before,
                binding@ == (name@, value@),
                found ==> i < env.len() && before[i as int].0 == name@,
                forall|k: int| 0 <= k < i ==> (#[trigger] before[k]).0 != name@,
            decreases
                    if found {
                        0
                    } else {
                        env.len() - i + 1
                    },
        {
            assert(before[i as int] == env@[i as int]@);
            if env[i].name == binding.name {
                found = true;
            } else {
                i += 1;
            }
        }
        if found {
            env.set(i, binding);
            assert(env@.map_values(|b: EnvBinding| b@) =~= bind(before, name@, value@));
        } else {
            env.push(binding);
            assert(!is_bound(before, name@));
            assert(env@.map_values(|b: EnvBinding| b@) =~= bind(before, name@, value@));
        }
        proof {
            lemma_bind_unique(before, name@, value@);
        }
        self.env = env;
    }

    fn add_grant(&mut self, grant: DirectoryGrant) -> (added: bool)
        ensures
            added <==> old(self)@.grants.len() < MAX_DIRECTORY_GRANTS,
            added ==> final(self)@ == (CapabilitiesView {
                grants: old(self)@.grants.push(grant@),
                ..old(self)@
            }),
            !added ==> final(self)@ == old(self)@,
    {
        proof {
            use_type_invariant(&*self);
        }
        if self.grants.len() >= MAX_DIRECTORY_GRANTS {
            return false;
        }
        let ghost before = self@.grants;
        let mut grants: Vec<DirectoryGrant> = Vec::new();
        core::mem::swap(&mut self.grants, &mut grants);
        let ghost pushed = grant@;
        grants.push(grant);
        assert(grants@.map_values(|g: DirectoryGrant| g@) =~= before.push(pushed));
        self.grants = grants;
        true
    }
}

/// Why a bundle of capabilities could not be set up.
#[derive(Clone, Debug, PartialEq, Eq)]
pub enum ConfigurationError {
    /// The host could not open the directory with the permissions asked for.
    RootUnavailable { host_path: String },
    /// The bundle holds as many directory grants as it can.
    TooManyGrants,
}

/// Collects the capabilities of one instance. It starts from nothing: what
/// is not added here, the guest does not get.
#[derive(Debug)]
pub struct HostContextBuilder {
    bundle: Capabilities,
}

impl View for HostContextBuilder {
    type V = CapabilitiesView;

    closed spec fn view(&self) -> CapabilitiesView {
        self.bundle@
    }
}

impl HostContextBuilder {
    /// A builder that has granted nothing yet.
    pub fn new() -> (builder: Self)
        ensures
            builder@ == (CapabilitiesView {
                stdin: Seq::empty(),
                stdout_capacity: 0,
                stderr_capacity: 0,
                env: Seq::empty(),
                grants: Seq::empty(),
            }),
    {
        HostContextBuilder { bundle: Capabilities::new() }
    }

    /// Sets the bytes that the guest reads from its input stream.
    pub fn stdin(&mut self, bytes: Vec<u8>)
        ensures
            final(self)@ == (CapabilitiesView { stdin: bytes@, ..old(self)@ }),
    {
        self.bundle.set_stdin(bytes);
    }

    /// Gives the guest a primary output sink that takes `capacity` bytes.
    pub fn stdout(&mut self, capacity: usize)
        ensures
            final(self)@ == (CapabilitiesView { stdout_capacity: capacity, ..old(self)@ }),
    {
        self.bundle.set_stdout_capacity(capacity);
    }

    /// Gives the guest a diagnostic output sink that takes `capacity` bytes.
    pub fn stderr(&mut self, capacity: usize)
        ensures
            final(self)@ == (CapabilitiesView { stderr_capacity: capacity, ..old(self)@ }),
    {
        self.bundle.set_stderr_capacity(capacity);
    }

    /// Binds `name` to `value` in the guest's environment. A name that is
    /// bound already keeps its place and gets the new value.
    pub fn env(&mut self, name: &str, value: &str)
        ensures
            final(self)@ == (CapabilitiesView {
                env: bind(old(self)@.env, name@, value@),
                ..old(self)@
            }),
    {
        self.bundle.set_env(name, value);
    }

    /// Grants the directory `host_path` under the name `guest_path`.
    /// `opened` says whether the host could open it with these permissions:
    /// a directory that it could not open is refused, and so is one more
    /// than `MAX_DIRECTORY_GRANTS`. A refusal leaves the builder as it was.
    pub fn preopened_dir(
        &mut self,
        host_path: &str,
        guest_path: &str,
        dir_perms: DirPerms,
        file_perms: FilePerms,
        opened: bool,
    ) -> (result: Result<(), ConfigurationError>)
        ensures
            match result {
                Ok(()) => {
                    &&& opened
                    &&& old(self)@.grants.len() < MAX_DIRECTORY_GRANTS
                    &&& final(self)@ == (CapabilitiesView {
                        grants: old(self)@.grants.push(
                            GrantView {
                                host_path: host_path@,
                                guest_path: guest_path@,
                                dir_perms,
                                file_perms,
                            },
                        ),
                        ..old(self)@
                    })
                },
                Err(ConfigurationError::RootUnavailable { host_path: refused }) => {
                    &&& !opened
                    &&& refused@ == host_path@
                    &&& final(self)@ == old(self)@
                },
                Err(ConfigurationError::TooManyGrants) => {
                    &&& opened
                    &&& old(self)@.grants.len() >= MAX_DIRECTORY_GRANTS
                    &&& final(self)@ == old(self)@
                },
            },
    {
        if !opened {
            return Err(ConfigurationError::RootUnavailable { host_path: host_path.to_string() });
        }
        let grant = DirectoryGrant {
            host_path: host_path.to_string(),
            guest_path: guest_path.to_string(),
            dir_perms,
            file_perms,
        };
        if self.bundle.add_grant(grant) {
            Ok(())
        } else {
            Err(ConfigurationError::TooManyGrants)
        }
    }

    /// Hands over the bundle as it was built.
    pub fn build(self) -> (caps: Capabilities)
        ensures
            caps@ == self@,
            valid_capabilities(caps@),
    {
        proof {
            use_type_invariant(&self.bundle);
        }
        self.bundle
    }
}

/// Every resource of a bundle is listed once: the list has an entry for each
/// stream, for the environment, for each grant and for the network where it
/// is allowed, and no entry twice. So what is released once per entry is
/// released exactly once.
pub proof fn lemma_capability_list_distinct(grants: nat, outbound_http: bool)
    requires
        grants <= usize::MAX,
    ensures
        capability_list(grants, outbound_http).len() == 4 + grants + if outbound_http {
            1nat
        } else {
            0nat
        },
        forall|i: int, j: int|
            0 <= i < j < capability_list(grants, outbound_http).len() ==> capability_list(
                grants,
                outbound_http,
            )[i] != capability_list(grants, outbound_http)[j],
        forall|i: int|
            4 <= i < 4 + grants ==> #[trigger] capability_list(grants, outbound_http)[i]
                == (Capability::Directory { grant: (i - 4) as usize }),
{
    let list = capability_list(grants, outbound_http);
    assert forall|i: int, j: int| 0 <= i < j < list.len() implies list[i] != list[j] by {
        if 4 <= i && j < 4 + grants {
            assert(list[i] == Capability::Directory { grant: (i - 4) as usize });
            assert(list[j] == Capability::Directory { grant: (j - 4) as usize });
        }
    }
}

/// A bundle without directory grants stands for no directory: nothing that
/// an instance registers for it, and so nothing that a handle resolves to,
/// is a directory.
pub proof fn lemma_no_grant_no_directory(outbound_http: bool)
    ensures
        forall|i: int|
            0 <= i < capability_list(0, outbound_http).len() ==> !(#[trigger] capability_list(
                0,
                outbound_http,
            )[i] is Directory),
{
}

/// In a sequence without repeated names, the binding of a name is the one
/// found at any place where the name stands.
pub proof fn lemma_value_of_unique(env: Seq<(Seq<char>, Seq<char>)>, name: Seq<char>, at: int)
    requires
        unique_names(env),
        0 <= at < env.len(),
        env[at].0 == name,
    ensures
        value_of(env, name) == Some(env[at].1),
{
    let chosen = choose|i: int| 0 <= i < env.len() && #[trigger] env[i].0 == name;
    assert(chosen == at) by {
        if chosen < at {
            assert(env[chosen].0 != env[at].0);
        } else if at < chosen {
            assert(env[at].0 != env[chosen].0);
        }
    }
}

/// Binding a name keeps the names unique, makes the name resolve to the new
/// value and leaves every other name as it was.
pub proof fn lemma_bind_unique(env: Seq<(Seq<char>, Seq<char>)>, name: Seq<char>, value: Seq<char>)
    requires
        unique_names(env),
    ensures
        unique_names(bind(env, name, value)),
        value_of(bind(env, name, value), name) == Some(value),
        forall|other: Seq<char>|
            other != name ==> #[trigger] value_of(bind(env, name, value), other) == value_of(
                env,
                other,
            ),
{
    let bound = bind(env, name, value);
    assert forall|i: int, j: int| 0 <= i < j < bound.len() implies #[trigger] bound[i].0
        != #[trigger] bound[j].0 by {
        if is_bound(env, name) {
            assert(bound[i].0 == env[i].0);
            assert(bound[j].0 == env[j].0);
        } else {
            if j < env.len() {
                assert(bound[i].0 == env[i].0);
                assert(bound[j].0 == env[j].0);
            } else {
                assert(bound[i] == env[i]);
                assert(env[i].0 != name);
            }
        }
    }
    if is_bound(env, name) {
        let at = choose|i: int| 0 <= i < env.len() && #[trigger] env[i].0 == name;
        assert(bound[at] == (name, value));
        lemma_value_of_unique(bound, name, at);
    } else {
        assert(bound[env.len() as int] == (name, value));
        lemma_value_of_unique(bound, name, env.len() as int);
    }
    assert forall|other: Seq<char>| other != name implies #[trigger] value_of(bound, other)
        == value_of(env, other) by {
        if is_bound(env, other) {
            let at = choose|i: int| 0 <= i < env.len() && #[trigger] env[i].0 == other;
            assert(bound[at] == env[at]);
            lemma_value_of_unique(env, other, at);
            lemma_value_of_unique(bound, other, at);
        } else {
            if is_bound(bound, other) {
                let at = choose|i: int| 0 <= i < bound.len() && #[trigger] bound[i].0 == other;
                if at < env.len() {
                    assert(bound[at].0 == env[at].0 || bound[at].0 == name);
                    assert(env[at].0 == other);
                }
                assert(false);
            }
        }
    }
}

} // verus!
