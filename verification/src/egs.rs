//! Epic Games Store integration: launcher arguments, credentials and the
//! EOS connection state machine.
//!
//! The SDK itself is loaded at run time by the application; everything that
//! decides something (which launcher argument sets which field, when a
//! configuration is usable, which state the bridge is in after start-up and
//! after each frame) lives here.

use vstd::prelude::*;
use crate::text::{chars_of, clone_opt_string, lower_char, lower_seq, lower_vec, seq_eq, string_of};

verus! {

// ───────────────────────────────────────────────────────────── config ──

/// EOS platform credentials. All fields are optional so a partially filled
/// configuration still works (missing pieces mean no EOS start-up).
#[derive(Debug)]
pub struct EgsConfig {
    pub product_id: Option<String>,
    pub sandbox_id: Option<String>,
    pub deployment_id: Option<String>,
    pub client_id: Option<String>,
    /// Only needed for development builds.
    pub client_secret: Option<String>,
}

/// Credentials as character sequences.
pub struct EgsConfigView {
    pub product_id: Option<Seq<char>>,
    pub sandbox_id: Option<Seq<char>>,
    pub deployment_id: Option<Seq<char>>,
    pub client_id: Option<Seq<char>>,
    pub client_secret: Option<Seq<char>>,
}

/// The characters of an optional string.
pub open spec fn opt_view(o: Option<String>) -> Option<Seq<char>> {
    match o {
        Some(s) => Some(s@),
        None => None,
    }
}

/// An optional value that is present and not empty.
pub open spec fn filled(o: Option<Seq<char>>) -> bool {
    o is Some && o->0.len() > 0
}

/// `env_or`: a non-empty environment value wins, else the fallback.
pub open spec fn env_or_spec(env: Option<Seq<char>>, fallback: Option<Seq<char>>) -> Option<Seq<char>> {
    if filled(env) {
        env
    } else {
        fallback
    }
}

impl View for EgsConfig {
    type V = EgsConfigView;

    open spec fn view(&self) -> EgsConfigView {
        EgsConfigView {
            product_id: opt_view(self.product_id),
            sandbox_id: opt_view(self.sandbox_id),
            deployment_id: opt_view(self.deployment_id),
            client_id: opt_view(self.client_id),
            client_secret: opt_view(self.client_secret),
        }
    }
}

impl EgsConfigView {
    /// Every value needed to create an EOS platform is present.
    pub open spec fn is_complete(self) -> bool {
        filled(self.product_id) && filled(self.sandbox_id) && filled(self.deployment_id)
            && filled(self.client_id)
    }
}

/// Whether an optional string is present and not empty.
pub fn is_filled(o: &Option<String>) -> (r: bool)
    ensures
        r == filled(opt_view(*o)),
{
    match o {
        Some(s) => !s.as_str().is_empty(),
        None => false,
    }
}

/// Pick the environment value when it is set and not empty, else the
/// fallback (the value read from `egs_config.json`).
pub fn env_or(env: Option<String>, fallback: Option<String>) -> (r: Option<String>)
    ensures
        opt_view(r) == env_or_spec(opt_view(env), opt_view(fallback)),
{
    if is_filled(&env) {
        env
    } else {
        fallback
    }
}

impl EgsConfig {
    /// A configuration with nothing filled in.
    pub fn empty() -> (c: EgsConfig)
        ensures
            c@.product_id is None,
            c@.sandbox_id is None,
            c@.deployment_id is None,
            c@.client_id is None,
            c@.client_secret is None,
    {
        EgsConfig {
            product_id: None,
            sandbox_id: None,
            deployment_id: None,
            client_id: None,
            client_secret: None,
        }
    }

    /// Merge the `NV2_EOS_*` environment values (`env`, one field per
    /// variable, `None` when unset) with the configuration read from
    /// `egs_config.json` (`from_file`, `None` when missing or unreadable).
    /// Environment values win over the file; an empty variable counts as
    /// unset.
    pub fn load(env: EgsConfig, from_file: Option<EgsConfig>) -> (c: EgsConfig)
        ensures
            ({
                let f = match from_file {
                    Some(f) => f@,
                    None => EgsConfig::empty_view(),
                };
                &&& c@.product_id == env_or_spec(env@.product_id, f.product_id)
                &&& c@.sandbox_id == env_or_spec(env@.sandbox_id, f.sandbox_id)
                &&& c@.deployment_id == env_or_spec(env@.deployment_id, f.deployment_id)
                &&& c@.client_id == env_or_spec(env@.client_id, f.client_id)
                &&& c@.client_secret == env_or_spec(env@.client_secret, f.client_secret)
            }),
    {
        let file = match from_file {
            Some(f) => f,
            None => EgsConfig::empty(),
        };
        EgsConfig {
            product_id: env_or(env.product_id, file.product_id),
            sandbox_id: env_or(env.sandbox_id, file.sandbox_id),
            deployment_id: env_or(env.deployment_id, file.deployment_id),
            client_id: env_or(env.client_id, file.client_id),
            client_secret: env_or(env.client_secret, file.client_secret),
        }
    }

    /// The view of [`EgsConfig::empty`].
    pub open spec fn empty_view() -> EgsConfigView {
        EgsConfigView {
            product_id: None,
            sandbox_id: None,
            deployment_id: None,
            client_id: None,
            client_secret: None,
        }
    }

    /// True when every value needed to create an EOS platform is present
    /// (the client secret is optional).
    pub fn complete(&self) -> (r: bool)
        ensures
            r == self@.is_complete(),
    {
        is_filled(&self.product_id) && is_filled(&self.sandbox_id) && is_filled(&self.deployment_id)
            && is_filled(&self.client_id)
    }
}

impl Clone for EgsConfig {
    /// The same credentials.
    fn clone(&self) -> (c: EgsConfig)
        ensures
            c == *self,
    {
        EgsConfig {
            product_id: clone_opt_string(&self.product_id),
            sandbox_id: clone_opt_string(&self.sandbox_id),
            deployment_id: clone_opt_string(&self.deployment_id),
            client_id: clone_opt_string(&self.client_id),
            client_secret: clone_opt_string(&self.client_secret),
        }
    }
}

impl Default for EgsConfig {
    /// Nothing filled in.
    fn default() -> (c: EgsConfig)
        ensures
            c@.product_id is None,
            c@.sandbox_id is None,
            c@.deployment_id is None,
            c@.client_id is None,
            c@.client_secret is None,
    {
        EgsConfig::empty()
    }
}

// ─────────────────────────────────────────────────── launcher arguments ──

/// What the Epic Games Launcher passes to a launched game (the subset the
/// engine reads).
#[derive(Debug)]
pub struct EpicLaunchArgs {
    pub launched_by_epic: bool,
    pub app_name: Option<String>,
    pub sandbox_id: Option<String>,
    pub deployment_id: Option<String>,
    pub product_id: Option<String>,
    /// `-AUTH_PASSWORD`: the exchange code that proves ownership.
    pub exchange_code: Option<String>,
    /// `-AUTH_TYPE`: `exchangecode` when the launcher provides one.
    pub auth_type: Option<String>,
}

/// Launcher arguments as character sequences.
pub struct LaunchArgsView {
    pub launched_by_epic: bool,
    pub app_name: Option<Seq<char>>,
    pub sandbox_id: Option<Seq<char>>,
    pub deployment_id: Option<Seq<char>>,
    pub product_id: Option<Seq<char>>,
    pub exchange_code: Option<Seq<char>>,
    pub auth_type: Option<Seq<char>>,
}

impl View for EpicLaunchArgs {
    type V = LaunchArgsView;

    open spec fn view(&self) -> LaunchArgsView {
        LaunchArgsView {
            launched_by_epic: self.launched_by_epic,
            app_name: opt_view(self.app_name),
            sandbox_id: opt_view(self.sandbox_id),
            deployment_id: opt_view(self.deployment_id),
            product_id: opt_view(self.product_id),
            exchange_code: opt_view(self.exchange_code),
            auth_type: opt_view(self.auth_type),
        }
    }
}

/// Which launcher switch an argument names.
#[derive(Clone, Copy, Debug, PartialEq, Eq, Structural)]
pub enum LaunchKey {
    /// `-EpicPortal` / `-EpicGames`
    Portal,
    /// `-EpicApp` / `-EpicAppId`
    App,
    /// `-EpicSandboxId` / `-EpicSandbox`
    Sandbox,
    /// `-EpicDeploymentId` / `-EpicDeployment`
    Deployment,
    /// `-EpicProductId` / `-EpicProduct`
    Product,
    /// `-AUTH_PASSWORD` / `-AuthPassword`
    AuthPassword,
    /// `-AUTH_TYPE` / `-AuthType`
    AuthType,
    /// Anything else (ignored).
    Other,
}

/// The switch named by a lower-cased key.
pub open spec fn key_of(k: Seq<char>) -> LaunchKey {
    if k == "-epicportal"@ || k == "-epicgames"@ {
        LaunchKey::Portal
    } else if k == "-epicapp"@ || k == "-epicappid"@ {
        LaunchKey::App
    } else if k == "-epicsandboxid"@ || k == "-epicsandbox"@ {
        LaunchKey::Sandbox
    } else if k == "-epicdeploymentid"@ || k == "-epicdeployment"@ {
        LaunchKey::Deployment
    } else if k == "-epicproductid"@ || k == "-epicproduct"@ {
        LaunchKey::Product
    } else if k == "-auth_password"@ || k == "-authpassword"@ {
        LaunchKey::AuthPassword
    } else if k == "-auth_type"@ || k == "-authtype"@ {
        LaunchKey::AuthType
    } else {
        LaunchKey::Other
    }
}

/// `p` is the position of the first `=` in `a`.
pub open spec fn first_eq_at(a: Seq<char>, p: int) -> bool {
    0 <= p < a.len() && a[p] == '=' && forall|j: int| 0 <= j < p ==> a[j] != '='
}

/// `a` contains a `=`.
pub open spec fn has_eq(a: Seq<char>) -> bool {
    exists|p: int| first_eq_at(a, p)
}

/// The lower-cased key of an argument (the part before the first `=`).
pub open spec fn arg_key(a: Seq<char>) -> Seq<char> {
    if has_eq(a) {
        lower_seq(a.take(choose|p: int| first_eq_at(a, p)))
    } else {
        lower_seq(a)
    }
}

/// The inline value of an argument (the part after the first `=`).
pub open spec fn arg_inline(a: Seq<char>) -> Option<Seq<char>> {
    if has_eq(a) {
        Some(a.skip((choose|p: int| first_eq_at(a, p)) + 1))
    } else {
        None
    }
}

/// A switch that takes a value.
pub open spec fn takes_value(k: LaunchKey) -> bool {
    k != LaunchKey::Portal && k != LaunchKey::Other
}

/// The value of the switch at `i`: its inline value, else the next
/// argument (if any).
pub open spec fn arg_value(args: Seq<Seq<char>>, i: int) -> Option<Seq<char>> {
    match arg_inline(args[i]) {
        Some(v) => Some(v),
        None => if i + 1 < args.len() {
            Some(args[i + 1])
        } else {
            None
        },
    }
}

/// Position of the argument after the one at `i` (a value taken from the
/// next argument is skipped).
pub open spec fn next_index(args: Seq<Seq<char>>, i: int) -> int {
    if takes_value(key_of(arg_key(args[i]))) && arg_inline(args[i]) is None && i + 1 < args.len() {
        i + 2
    } else {
        i + 1
    }
}

/// The effect of the argument at `i` on the parsed arguments.
pub open spec fn apply_arg(args: Seq<Seq<char>>, i: int, acc: LaunchArgsView) -> LaunchArgsView {
    let v = arg_value(args, i);
    match key_of(arg_key(args[i])) {
        LaunchKey::Portal => LaunchArgsView { launched_by_epic: true, ..acc },
        LaunchKey::App => LaunchArgsView { app_name: v, ..acc },
        LaunchKey::Sandbox => LaunchArgsView { sandbox_id: v, ..acc },
        LaunchKey::Deployment => LaunchArgsView { deployment_id: v, ..acc },
        LaunchKey::Product => LaunchArgsView { product_id: v, ..acc },
        LaunchKey::AuthPassword => LaunchArgsView { exchange_code: v, ..acc },
        LaunchKey::AuthType => LaunchArgsView { auth_type: v, ..acc },
        LaunchKey::Other => acc,
    }
}

/// Parsing the arguments from position `i` on, starting from `acc`.
pub open spec fn parse_from(args: Seq<Seq<char>>, i: int, acc: LaunchArgsView) -> LaunchArgsView
    decreases args.len() - i,
{
    if i < 0 || i >= args.len() {
        acc
    } else {
        parse_from(args, next_index(args, i), apply_arg(args, i, acc))
    }
}

/// Nothing set.
pub open spec fn no_launch_args() -> LaunchArgsView {
    LaunchArgsView {
        launched_by_epic: false,
        app_name: None,
        sandbox_id: None,
        deployment_id: None,
        product_id: None,
        exchange_code: None,
        auth_type: None,
    }
}

/// The arguments as character sequences.
pub open spec fn arg_seqs(args: Seq<String>) -> Seq<Seq<char>> {
    args.map_values(|s: String| s@)
}

/// Position of the first `=` in `a`, if any.
fn find_eq(a: &Vec<char>) -> (r: Option<usize>)
    ensures
        match r {
            Some(p) => first_eq_at(a@, p as int),
            None => !has_eq(a@),
        },
{
    let mut i: usize = 0;
    while i < a.len()
        invariant
            i <= a.len(),
            forall|j: int| 0 <= j < i ==> a@[j] != '=',
        decreases a.len() - i,
    {
        if a[i] == '=' {
            return Some(i);
        }
        i = i + 1;
    }
    proof {
        if has_eq(a@) {
            let p = choose|p: int| first_eq_at(a@, p);
            assert(a@[p] == '=');
        }
    }
    None
}

/// The first `=` is unique.
proof fn lemma_first_eq_unique(a: Seq<char>, p: int)
    requires
        first_eq_at(a, p),
    ensures
        has_eq(a),
        (choose|q: int| first_eq_at(a, q)) == p,
{
    let q = choose|q: int| first_eq_at(a, q);
    assert(first_eq_at(a, q));
    if q < p {
        assert(a[q] != '=');
    }
    if p < q {
        assert(a[p] != '=');
    }
}

/// `s` holds no `=`.
spec fn no_eq(s: Seq<char>) -> bool {
    forall|i: int| 0 <= i < s.len() ==> s[i] != '='
}

/// A switch without `=` keeps its lower-cased self as key and has no
/// inline value; followed by `=` and a value, it keeps the same key and
/// carries that value.
proof fn lemma_split_switch(p: Seq<char>, v: Seq<char>)
    requires
        no_eq(lower_seq(p)),
    ensures
        !has_eq(p),
        arg_key(p) == lower_seq(p),
        arg_inline(p) is None,
        arg_key(p + seq!['='] + v) == lower_seq(p),
        arg_inline(p + seq!['='] + v) == Some(v),
{
    assert forall|i: int| 0 <= i < p.len() implies p[i] != '=' by {
        assert(lower_seq(p)[i] == lower_char(p[i]));
    }
    if has_eq(p) {
        let q = choose|q: int| first_eq_at(p, q);
        assert(p[q] == '=');
    }
    let w = p + seq!['='] + v;
    assert(w[p.len() as int] == '=');
    assert forall|j: int| 0 <= j < p.len() implies w[j] != '=' by {
        assert(w[j] == p[j]);
    }
    assert(first_eq_at(w, p.len() as int));
    lemma_first_eq_unique(w, p.len() as int);
    assert(w.take(p.len() as int) =~= p);
    assert(w.skip(p.len() as int + 1) =~= v);
}

/// Parsing a single value switch, inline (`p=v`) or followed by its value
/// (`p v`), is applying it once with value `v`.
proof fn lemma_value_switch(p: Seq<char>, v: Seq<char>, acc: LaunchArgsView)
    requires
        no_eq(lower_seq(p)),
        takes_value(key_of(lower_seq(p))),
    ensures
        parse_from(seq![p + seq!['='] + v], 0, acc) == apply_arg(seq![p + seq!['='] + v], 0, acc),
        arg_value(seq![p + seq!['='] + v], 0) == Some(v),
        key_of(arg_key(seq![p + seq!['='] + v][0])) == key_of(lower_seq(p)),
        parse_from(seq![p, v], 0, acc) == apply_arg(seq![p, v], 0, acc),
        arg_value(seq![p, v], 0) == Some(v),
        key_of(arg_key(seq![p, v][0])) == key_of(lower_seq(p)),
{
    lemma_split_switch(p, v);
    let a1 = seq![p + seq!['='] + v];
    let a2 = seq![p, v];
    assert(a1[0] == p + seq!['='] + v);
    assert(a2[0] == p);
    assert(a2[1] == v);
    assert(next_index(a1, 0) == 1);
    assert(next_index(a2, 0) == 2);
    assert(parse_from(a1, 1, apply_arg(a1, 0, acc)) == apply_arg(a1, 0, acc));
    assert(parse_from(a2, 2, apply_arg(a2, 0, acc)) == apply_arg(a2, 0, acc));
}

/// The value switches, matched whatever their case, set their field to the
/// value given inline (`-EpicApp=NV20`) or as the next argument
/// (`-epicsandboxid id`), leaving every other field as it was.
pub proof fn lemma_launch_value_switches(p: Seq<char>, v: Seq<char>, acc: LaunchArgsView)
    ensures
        lower_seq(p) == "-epicapp"@ || lower_seq(p) == "-epicappid"@ ==> {
            &&& parse_from(seq![p + seq!['='] + v], 0, acc) == (LaunchArgsView { app_name: Some(v), ..acc })
            &&& parse_from(seq![p, v], 0, acc) == (LaunchArgsView { app_name: Some(v), ..acc })
        },
        lower_seq(p) == "-epicsandboxid"@ || lower_seq(p) == "-epicsandbox"@ ==> {
            &&& parse_from(seq![p + seq!['='] + v], 0, acc) == (LaunchArgsView { sandbox_id: Some(v), ..acc })
            &&& parse_from(seq![p, v], 0, acc) == (LaunchArgsView { sandbox_id: Some(v), ..acc })
        },
        lower_seq(p) == "-epicdeploymentid"@ || lower_seq(p) == "-epicdeployment"@ ==> {
            &&& parse_from(seq![p + seq!['='] + v], 0, acc) == (LaunchArgsView { deployment_id: Some(v), ..acc })
            &&& parse_from(seq![p, v], 0, acc) == (LaunchArgsView { deployment_id: Some(v), ..acc })
        },
        lower_seq(p) == "-epicproductid"@ || lower_seq(p) == "-epicproduct"@ ==> {
            &&& parse_from(seq![p + seq!['='] + v], 0, acc) == (LaunchArgsView { product_id: Some(v), ..acc })
            &&& parse_from(seq![p, v], 0, acc) == (LaunchArgsView { product_id: Some(v), ..acc })
        },
        lower_seq(p) == "-auth_password"@ || lower_seq(p) == "-authpassword"@ ==> {
            &&& parse_from(seq![p + seq!['='] + v], 0, acc) == (LaunchArgsView { exchange_code: Some(v), ..acc })
            &&& parse_from(seq![p, v], 0, acc) == (LaunchArgsView { exchange_code: Some(v), ..acc })
        },
        lower_seq(p) == "-auth_type"@ || lower_seq(p) == "-authtype"@ ==> {
            &&& parse_from(seq![p + seq!['='] + v], 0, acc) == (LaunchArgsView { auth_type: Some(v), ..acc })
            &&& parse_from(seq![p, v], 0, acc) == (LaunchArgsView { auth_type: Some(v), ..acc })
        },
{
    reveal_strlit("-epicportal");
    reveal_strlit("-epicgames");
    reveal_strlit("-epicapp");
    reveal_strlit("-epicappid");
    reveal_strlit("-epicsandboxid");
    reveal_strlit("-epicsandbox");
    reveal_strlit("-epicdeploymentid");
    reveal_strlit("-epicdeployment");
    reveal_strlit("-epicproductid");
    reveal_strlit("-epicproduct");
    reveal_strlit("-auth_password");
    reveal_strlit("-authpassword");
    reveal_strlit("-auth_type");
    reveal_strlit("-authtype");
    let k = lower_seq(p);
    assert("-epicportal"@.len() == 11);
    assert("-epicgames"@.len() == 10);
    assert("-epicapp"@.len() == 8);
    assert("-epicappid"@.len() == 10);
    assert("-epicsandboxid"@.len() == 14);
    assert("-epicsandbox"@.len() == 12);
    assert("-epicdeploymentid"@.len() == 17);
    assert("-epicdeployment"@.len() == 15);
    assert("-epicproductid"@.len() == 14);
    assert("-epicproduct"@.len() == 12);
    assert("-auth_password"@.len() == 14);
    assert("-authpassword"@.len() == 13);
    assert("-auth_type"@.len() == 10);
    assert("-authtype"@.len() == 9);
    assert("-epicappid"@[5] != "-epicgames"@[5]);
    assert("-auth_type"@[1] != "-epicgames"@[1]);
    assert("-auth_type"@[1] != "-epicappid"@[1]);
    assert("-epicsandbox"@[5] != "-epicproduct"@[5]);
    assert("-epicsandboxid"@[5] != "-epicproductid"@[5]);
    assert("-auth_password"@[1] != "-epicsandboxid"@[1]);
    assert("-auth_password"@[1] != "-epicproductid"@[1]);

    if k == "-epicappid"@ || k == "-epicapp"@ {
        assert(key_of(k) == LaunchKey::App);
        assert(no_eq(k));
        lemma_value_switch(p, v, acc);
    } else if k == "-epicsandbox"@ || k == "-epicsandboxid"@ {
        assert(key_of(k) == LaunchKey::Sandbox);
        assert(no_eq(k));
        lemma_value_switch(p, v, acc);
    } else if k == "-epicdeployment"@ || k == "-epicdeploymentid"@ {
        assert(key_of(k) == LaunchKey::Deployment);
        assert(no_eq(k));
        lemma_value_switch(p, v, acc);
    } else if k == "-epicproduct"@ || k == "-epicproductid"@ {
        assert(key_of(k) == LaunchKey::Product);
        assert(no_eq(k));
        lemma_value_switch(p, v, acc);
    } else if k == "-authpassword"@ || k == "-auth_password"@ {
        assert(key_of(k) == LaunchKey::AuthPassword);
        assert(no_eq(k));
        lemma_value_switch(p, v, acc);
    } else if k == "-authtype"@ || k == "-auth_type"@ {
        assert(key_of(k) == LaunchKey::AuthType);
        assert(no_eq(k));
        lemma_value_switch(p, v, acc);
    }
}

/// The portal switch (`-EpicPortal` / `-EpicGames`, whatever the case)
/// marks a launcher start and changes nothing else.
pub proof fn lemma_launch_portal_switch(p: Seq<char>, acc: LaunchArgsView)
    requires
        lower_seq(p) == "-epicportal"@ || lower_seq(p) == "-epicgames"@,
    ensures
        parse_from(seq![p], 0, acc) == (LaunchArgsView { launched_by_epic: true, ..acc }),
{
    reveal_strlit("-epicportal");
    reveal_strlit("-epicgames");
    assert(no_eq(lower_seq(p)));
    lemma_split_switch(p, Seq::empty());
    let a = seq![p];
    assert(a[0] == p);
    assert(key_of(arg_key(a[0])) == LaunchKey::Portal);
    assert(next_index(a, 0) == 1);
    assert(parse_from(a, 1, apply_arg(a, 0, acc)) == apply_arg(a, 0, acc));
}

/// Any other argument (whose key, lower-cased and cut at the first `=`, is
/// none of the launcher switches) is ignored.
pub proof fn lemma_unknown_arguments_ignored(a: Seq<char>, acc: LaunchArgsView)
    requires
        arg_key(a) != "-epicportal"@ && arg_key(a) != "-epicgames"@,
        arg_key(a) != "-epicapp"@ && arg_key(a) != "-epicappid"@,
        arg_key(a) != "-epicsandboxid"@ && arg_key(a) != "-epicsandbox"@,
        arg_key(a) != "-epicdeploymentid"@ && arg_key(a) != "-epicdeployment"@,
        arg_key(a) != "-epicproductid"@ && arg_key(a) != "-epicproduct"@,
        arg_key(a) != "-auth_password"@ && arg_key(a) != "-authpassword"@,
        arg_key(a) != "-auth_type"@ && arg_key(a) != "-authtype"@,
    ensures
        parse_from(seq![a], 0, acc) == acc,
{
    let s = seq![a];
    assert(s[0] == a);
    assert(next_index(s, 0) == 1);
    assert(parse_from(s, 1, apply_arg(s, 0, acc)) == apply_arg(s, 0, acc));
}

/// Whether `k` equals the literal `lit`.
fn is_key(k: &Vec<char>, lit: &str) -> (r: bool)
    ensures
        r == (k@ == lit@),
{
    let l = chars_of(lit);
    seq_eq(k, &l)
}

/// The switch a lower-cased key names.
fn key_of_exec(k: &Vec<char>) -> (r: LaunchKey)
    ensures
        r == key_of(k@),
{
    if is_key(k, "-epicportal") || is_key(k, "-epicgames") {
        LaunchKey::Portal
    } else if is_key(k, "-epicapp") || is_key(k, "-epicappid") {
        LaunchKey::App
    } else if is_key(k, "-epicsandboxid") || is_key(k, "-epicsandbox") {
        LaunchKey::Sandbox
    } else if is_key(k, "-epicdeploymentid") || is_key(k, "-epicdeployment") {
        LaunchKey::Deployment
    } else if is_key(k, "-epicproductid") || is_key(k, "-epicproduct") {
        LaunchKey::Product
    } else if is_key(k, "-auth_password") || is_key(k, "-authpassword") {
        LaunchKey::AuthPassword
    } else if is_key(k, "-auth_type") || is_key(k, "-authtype") {
        LaunchKey::AuthType
    } else {
        LaunchKey::Other
    }
}

/// Split one argument into its lower-cased key and its inline value.
fn split_arg(arg: &String) -> (r: (Vec<char>, Option<String>))
    ensures
        r.0@ == arg_key(arg@),
        opt_view(r.1) == arg_inline(arg@),
{
    let a = chars_of(arg.as_str());
    match find_eq(&a) {
        Some(p) => {
            proof {
                lemma_first_eq_unique(a@, p as int);
            }
            let mut head: Vec<char> = Vec::new();
            let mut i: usize = 0;
            while i < p
                invariant
                    p < a.len(),
                    i <= p,
                    head@ == a@.take(i as int),
                decreases p - i,
            {
                head.push(a[i]);
                assert(a@.take(i as int + 1) =~= a@.take(i as int).push(a@[i as int]));
                i = i + 1;
            }
            let mut tail: Vec<char> = Vec::new();
            let mut j: usize = p + 1;
            while j < a.len()
                invariant
                    p < a.len(),
                    p + 1 <= j <= a.len(),
                    tail@ == a@.subrange(p + 1, j as int),
                decreases a.len() - j,
            {
                tail.push(a[j]);
                assert(a@.subrange(p + 1, j + 1) =~= a@.subrange(p + 1, j as int).push(a@[j as int]));
                j = j + 1;
            }
            assert(tail@ =~= a@.skip(p + 1));
            let key = lower_vec(&head);
            (key, Some(string_of(&tail)))
        },
        None => (lower_vec(&a), None),
    }
}

impl EpicLaunchArgs {
    /// Nothing set: not launched by the launcher, no ids.
    pub fn empty() -> (r: EpicLaunchArgs)
        ensures
            r@ == no_launch_args(),
    {
        EpicLaunchArgs {
            launched_by_epic: false,
            app_name: None,
            sandbox_id: None,
            deployment_id: None,
            product_id: None,
            exchange_code: None,
            auth_type: None,
        }
    }

    /// Parse the process argument list for the launcher's arguments.
    ///
    /// Keys are matched case-insensitively; a value is given inline
    /// (`-EpicApp=NV20`) or as the next argument (`-epicsandboxid id`), in
    /// which case that argument is consumed. Later occurrences win;
    /// unknown arguments are ignored.
    pub fn from_args(args: &[String]) -> (out: EpicLaunchArgs)
        ensures
            out@ == parse_from(arg_seqs(args@), 0, no_launch_args()),
    {
        let ghost seqs = arg_seqs(args@);
        let mut out = EpicLaunchArgs::empty();
        let mut i: usize = 0;
        while i < args.len()
            invariant
                seqs == arg_seqs(args@),
                seqs.len() == args@.len(),
                i <= args.len(),
                parse_from(seqs, 0, no_launch_args()) == parse_from(seqs, i as int, out@),
            decreases args.len() - i,
        {
            let (key_chars, inline_val) = split_arg(&args[i]);
            assert(seqs[i as int] == args@[i as int]@);
            let key = key_of_exec(&key_chars);
            let ghost before = out@;
            let ghost next = next_index(seqs, i as int);
            let mut next_i: usize = i + 1;
            let value: Option<String> = if key == LaunchKey::Portal || key == LaunchKey::Other {
                None
            } else {
                match inline_val {
                    Some(v) => Some(v),
                    None => if i + 1 < args.len() {
                        next_i = i + 2;
                        assert(seqs[i + 1] == args@[i + 1]@);
                        Some(args[i + 1].clone())
                    } else {
                        None
                    },
                }
            };
            assert(key != LaunchKey::Portal && key != LaunchKey::Other ==> opt_view(value)
                == arg_value(seqs, i as int));
            match key {
                LaunchKey::Portal => out.launched_by_epic = true,
                LaunchKey::App => out.app_name = value,
                LaunchKey::Sandbox => out.sandbox_id = value,
                LaunchKey::Deployment => out.deployment_id = value,
                LaunchKey::Product => out.product_id = value,
                LaunchKey::AuthPassword => out.exchange_code = value,
                LaunchKey::AuthType => out.auth_type = value,
                LaunchKey::Other => {},
            }
            assert(next_i == next);
            assert(out@ == apply_arg(seqs, i as int, before));
            i = next_i;
        }
        out
    }

    /// True when this looks like a real launcher start with ownership proof
    /// (an exchange code is present and not empty).
    pub fn has_exchange_code(&self) -> (r: bool)
        ensures
            r == filled(self@.exchange_code),
    {
        is_filled(&self.exchange_code)
    }
}

impl Clone for EpicLaunchArgs {
    /// The same arguments.
    fn clone(&self) -> (r: EpicLaunchArgs)
        ensures
            r == *self,
    {
        EpicLaunchArgs {
            launched_by_epic: self.launched_by_epic,
            app_name: clone_opt_string(&self.app_name),
            sandbox_id: clone_opt_string(&self.sandbox_id),
            deployment_id: clone_opt_string(&self.deployment_id),
            product_id: clone_opt_string(&self.product_id),
            exchange_code: clone_opt_string(&self.exchange_code),
            auth_type: clone_opt_string(&self.auth_type),
        }
    }
}

impl Default for EpicLaunchArgs {
    /// Not launched by the launcher, nothing set.
    fn default() -> (r: EpicLaunchArgs)
        ensures
            r@ == no_launch_args(),
    {
        EpicLaunchArgs::empty()
    }
}

// ───────────────────────────────────────────────────────── SDK enums ──

/// `EOS_EResult` (success = 0).
#[derive(Clone, Copy, Debug, PartialEq, Eq, Structural)]
pub enum EosResult {
    Success,
    NoConnection,
    InvalidAuth,
    InvalidParameters,
    NotFound,
    Other,
}

impl EosResult {
    /// The SDK's numeric code.
    pub open spec fn code_spec(self) -> i32 {
        match self {
            EosResult::Success => 0,
            EosResult::NoConnection => 1,
            EosResult::InvalidAuth => 2,
            EosResult::InvalidParameters => 3,
            EosResult::NotFound => 4,
            EosResult::Other => 5,
        }
    }

    /// The SDK's numeric code.
    pub fn code(self) -> (r: i32)
        ensures
            r == self.code_spec(),
    {
        match self {
            EosResult::Success => 0,
            EosResult::NoConnection => 1,
            EosResult::InvalidAuth => 2,
            EosResult::InvalidParameters => 3,
            EosResult::NotFound => 4,
            EosResult::Other => 5,
        }
    }
}

/// `EOS_ELoginStatus`.
#[derive(Clone, Copy, Debug, PartialEq, Eq, Structural)]
pub enum EosLoginStatus {
    NotLoggedIn,
    UsingLocalProfile,
    LoggedIn,
}

impl EosLoginStatus {
    /// The SDK's numeric code.
    pub open spec fn code_spec(self) -> i32 {
        match self {
            EosLoginStatus::NotLoggedIn => 0,
            EosLoginStatus::UsingLocalProfile => 1,
            EosLoginStatus::LoggedIn => 2,
        }
    }

    /// The SDK's numeric code.
    pub fn code(self) -> (r: i32)
        ensures
            r == self.code_spec(),
    {
        match self {
            EosLoginStatus::NotLoggedIn => 0,
            EosLoginStatus::UsingLocalProfile => 1,
            EosLoginStatus::LoggedIn => 2,
        }
    }
}

/// `EOS_EAuthCredentialType`; the store always uses `ExchangeCode`.
#[derive(Clone, Copy, Debug, PartialEq, Eq, Structural)]
pub enum EosAuthCredentialType {
    Password,
    ExchangeCode,
    PersistentAuth,
    DeviceCode,
    Developer,
    RefreshToken,
    AccountPortal,
    ExternalAuth,
}

impl EosAuthCredentialType {
    /// The SDK's numeric code.
    pub open spec fn code_spec(self) -> i32 {
        match self {
            EosAuthCredentialType::Password => 0,
            EosAuthCredentialType::ExchangeCode => 1,
            EosAuthCredentialType::PersistentAuth => 2,
            EosAuthCredentialType::DeviceCode => 3,
            EosAuthCredentialType::Developer => 4,
            EosAuthCredentialType::RefreshToken => 5,
            EosAuthCredentialType::AccountPortal => 6,
            EosAuthCredentialType::ExternalAuth => 7,
        }
    }

    /// The SDK's numeric code.
    pub fn code(self) -> (r: i32)
        ensures
            r == self.code_spec(),
    {
        match self {
            EosAuthCredentialType::Password => 0,
            EosAuthCredentialType::ExchangeCode => 1,
            EosAuthCredentialType::PersistentAuth => 2,
            EosAuthCredentialType::DeviceCode => 3,
            EosAuthCredentialType::Developer => 4,
            EosAuthCredentialType::RefreshToken => 5,
            EosAuthCredentialType::AccountPortal => 6,
            EosAuthCredentialType::ExternalAuth => 7,
        }
    }
}

// ──────────────────────────────────────────────────── bridge state ──

/// State of the EOS bridge, shown on the HUD.
#[derive(Clone, Copy, Debug, PartialEq, Eq, Structural)]
pub enum EosState {
    /// No SDK or not launched by the launcher: nothing to do.
    Disabled,
    /// SDK loaded, credentials missing.
    WaitingForConfig,
    /// Platform created, login in progress.
    Connecting,
    /// Authenticated: achievements and stats are reported.
    Connected,
    /// Something failed.
    Error,
}

impl EosState {
    /// The HUD text of a state.
    pub open spec fn label_spec(self) -> &'static str {
        match self {
            EosState::Disabled => "EOS: disabled (keyless)",
            EosState::WaitingForConfig => "EOS: SDK found — add Dev Portal credentials",
            EosState::Connecting => "EOS: connecting…",
            EosState::Connected => "EOS: connected",
            EosState::Error => "EOS: error (see log)",
        }
    }

    /// The HUD text of a state.
    pub fn label(self) -> (r: &'static str)
        ensures
            r == self.label_spec(),
    {
        match self {
            EosState::Disabled => "EOS: disabled (keyless)",
            EosState::WaitingForConfig => "EOS: SDK found — add Dev Portal credentials",
            EosState::Connecting => "EOS: connecting…",
            EosState::Connected => "EOS: connected",
            EosState::Error => "EOS: error (see log)",
        }
    }
}

/// What looking for the SDK next to the executable found.
#[derive(Clone, Copy, Debug, PartialEq, Eq, Structural)]
pub enum SdkProbe {
    /// No SDK library could be loaded.
    Missing,
    /// The library loaded but an entry point is missing.
    MissingSymbol,
    /// The library and every entry point are there.
    Loaded,
}

/// The state of a freshly created bridge.
pub open spec fn start_state_spec(
    launched_by_epic: bool,
    probe: SdkProbe,
    config_complete: bool,
    platform_created: bool,
    has_exchange_code: bool,
) -> EosState {
    if !launched_by_epic || probe != SdkProbe::Loaded {
        EosState::Disabled
    } else if !config_complete {
        EosState::WaitingForConfig
    } else if !platform_created {
        EosState::Error
    } else if has_exchange_code {
        EosState::Connecting
    } else {
        EosState::Connected
    }
}

/// How a bridge starts: disabled unless the game was launched by the
/// launcher with the SDK library and all its entry points loaded (whatever
/// the credentials); waiting exactly when launched with the SDK but with
/// incomplete credentials; an error exactly when the platform could not
/// be created from complete credentials; logging in exactly when there is
/// an exchange code, and connected exactly when there is none.
pub proof fn lemma_start_state_rules(
    launched_by_epic: bool,
    probe: SdkProbe,
    config_complete: bool,
    platform_created: bool,
    has_exchange_code: bool,
)
    ensures
        ({
            let s = start_state_spec(launched_by_epic, probe, config_complete, platform_created, has_exchange_code);
            let sdk_ready = launched_by_epic && probe == SdkProbe::Loaded;
            &&& !launched_by_epic ==> s == EosState::Disabled
            &&& probe != SdkProbe::Loaded ==> s == EosState::Disabled
            &&& (s == EosState::Disabled) == !sdk_ready
            &&& (s == EosState::WaitingForConfig) == (sdk_ready && !config_complete)
            &&& (s == EosState::Error) == (sdk_ready && config_complete && !platform_created)
            &&& (s == EosState::Connecting) == (sdk_ready && config_complete && platform_created && has_exchange_code)
            &&& (s == EosState::Connected) == (sdk_ready && config_complete && platform_created && !has_exchange_code)
        }),
{
}

/// The state a bridge starts in: disabled unless launched by the launcher
/// with the whole SDK present; waiting when the credentials are
/// incomplete; an error when the platform could not be created; otherwise
/// logging in with the exchange code, or connected when there is none.
/// `platform_created` and `has_exchange_code` are read only when the
/// earlier conditions hold.
pub fn start_state(
    launched_by_epic: bool,
    probe: SdkProbe,
    config_complete: bool,
    platform_created: bool,
    has_exchange_code: bool,
) -> (s: EosState)
    ensures
        s == start_state_spec(launched_by_epic, probe, config_complete, platform_created, has_exchange_code),
{
    if !launched_by_epic {
        return EosState::Disabled;
    }
    match probe {
        SdkProbe::Loaded => {},
        _ => return EosState::Disabled,
    }
    if !config_complete {
        return EosState::WaitingForConfig;
    }
    if !platform_created {
        return EosState::Error;
    }
    if has_exchange_code {
        EosState::Connecting
    } else {
        EosState::Connected
    }
}

/// The state after one frame, given the login status the SDK reports
/// (`None` when the SDK has no status entry point) and the result code the
/// login callback left behind (`None` when it has not reported).
pub open spec fn tick_state_spec(state: EosState, login_status: Option<i32>, auth_result: Option<i32>) -> EosState {
    if state != EosState::Connecting {
        state
    } else {
        let after_status = if login_status == Some(EosLoginStatus::LoggedIn.code_spec()) {
            EosState::Connected
        } else {
            state
        };
        match auth_result {
            Some(rc) => if rc != EosResult::Success.code_spec() {
                EosState::Error
            } else {
                after_status
            },
            None => after_status,
        }
    }
}

/// Advance the bridge state by one frame: only a login in progress moves;
/// it becomes connected when the SDK reports the user logged in, and an
/// error when the login callback reported a failure (the failure wins).
pub fn tick_state(state: EosState, login_status: Option<i32>, auth_result: Option<i32>) -> (s: EosState)
    ensures
        s == tick_state_spec(state, login_status, auth_result),
{
    if state != EosState::Connecting {
        return state;
    }
    let mut next = state;
    if let Some(status) = login_status {
        if status == EosLoginStatus::LoggedIn.code() {
            next = EosState::Connected;
        }
    }
    if let Some(rc) = auth_result {
        if rc != EosResult::Success.code() {
            next = EosState::Error;
        }
    }
    next
}

/// How a frame moves the bridge: a state other than logging in never
/// changes; a login fails (whatever the status) when the callback reports a
/// result other than success (0); otherwise it completes when the SDK
/// reports the user logged in (status 2) and goes on waiting when not.
pub proof fn lemma_tick_state_rules(state: EosState, login_status: Option<i32>, auth_result: Option<i32>)
    ensures
        ({
            let s = tick_state_spec(state, login_status, auth_result);
            let failed = auth_result is Some && auth_result->0 != 0;
            let logged_in = login_status == Some(2i32);
            &&& state != EosState::Connecting ==> s == state
            &&& state == EosState::Connecting && failed ==> s == EosState::Error
            &&& state == EosState::Connecting && !failed && logged_in ==> s == EosState::Connected
            &&& state == EosState::Connecting && !failed && !logged_in ==> s == EosState::Connecting
        }),
{
}

/// Whether achievements and stats are reported in this state (only when
/// connected; otherwise those calls do nothing).
pub fn reports_enabled(state: EosState) -> (r: bool)
    ensures
        r == (state == EosState::Connected),
{
    state == EosState::Connected
}

} // verus!
