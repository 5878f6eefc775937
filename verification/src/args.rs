//! The argument and environment vectors that the worker is started with.

use crate::bytes::append;
use vstd::prelude::*;
use vstd::slice::slice_to_vec;
use vstd::string::StringSliceAdditionalSpecFns;

verus! {

/// What a caller may choose of the worker's command line and environment.
/// No string may hold a NUL byte.
#[derive(Debug, PartialEq, Eq)]
pub struct NixConfig {
    /// Arguments that follow the fixed ones and precede the subcommand.
    pub extra_args: Vec<Vec<u8>>,
    /// The whole environment of the worker, as keys and values in order; with
    /// `None` the worker inherits the caller's.
    pub vars: Option<Vec<(Vec<u8>, Vec<u8>)>>,
}

/// The vectors of a spawn: each entry is a byte string that ends in its only
/// NUL byte.
#[derive(Debug, PartialEq, Eq)]
pub struct ProcessArgs {
    /// The argument vector, the program's name first.
    pub argv: Vec<Vec<u8>>,
    /// The environment vector, where the worker does not inherit the caller's.
    pub envp: Option<Vec<Vec<u8>>>,
}

/// The first string of a configuration that holds a NUL byte.
#[derive(Clone, Copy, Debug, PartialEq, Eq, Structural)]
pub enum ConfigError {
    /// The installation prefix of the plugin.
    PluginPrefix,
    /// The extra argument at this index.
    ExtraArg(usize),
    /// The key or the value of the variable at this index.
    Variable(usize),
}

/// The byte that ends a C string.
pub const NUL: u8 = 0;

/// The byte between the key and the value of an environment entry: `=`.
pub const EQUALS: u8 = 61;

/// Whether a byte string holds a NUL byte.
pub open spec fn has_nul(s: Seq<u8>) -> bool {
    s.contains(NUL)
}

/// `s` with the NUL byte that ends a C string.
pub open spec fn c_string(s: Seq<u8>) -> Seq<u8> {
    s.push(NUL)
}

/// Whether `b` ends in a NUL byte and holds no other.
pub open spec fn is_c_string(b: Seq<u8>) -> bool {
    b.len() > 0 && b.last() == NUL && !has_nul(b.drop_last())
}

/// The contents of a vector of byte strings.
pub open spec fn rows(v: Seq<Vec<u8>>) -> Seq<Seq<u8>> {
    Seq::new(v.len(), |i: int| v[i]@)
}

/// The contents of a vector of keys and values.
pub open spec fn pairs(v: Seq<(Vec<u8>, Vec<u8>)>) -> Seq<(Seq<u8>, Seq<u8>)> {
    Seq::new(v.len(), |i: int| (v[i].0@, v[i].1@))
}

/// The arguments that every worker is started with: the program's name, the
/// switch that enables the `nix` command namespace, and the switch that
/// announces the plugin directory.
pub open spec fn leading_args() -> Seq<Seq<u8>> {
    seq![
        "nix".spec_bytes(),
        "--extra-experimental-features".spec_bytes(),
        "nix-command".spec_bytes(),
        "--extra-plugin-files".spec_bytes(),
    ]
}

/// The directory of the plugin below its installation prefix.
pub open spec fn plugin_dir(prefix: Seq<u8>) -> Seq<u8> {
    prefix + "/lib/nix/plugins".spec_bytes()
}

/// The subcommand that ends every argument vector.
pub open spec fn subcommand() -> Seq<u8> {
    "ffi-helper".spec_bytes()
}

/// The argument vector: the leading arguments, the plugin directory, the
/// extra arguments, the subcommand, each as a C string.
pub open spec fn argv_of(prefix: Seq<u8>, extra: Seq<Seq<u8>>) -> Seq<Seq<u8>> {
    (leading_args().push(plugin_dir(prefix)) + extra).push(subcommand()).map_values(
        |s: Seq<u8>| c_string(s),
    )
}

/// The entry of the environment vector for a key and a value: the two with
/// `=` between them, as a C string.
pub open spec fn env_entry(var: (Seq<u8>, Seq<u8>)) -> Seq<u8> {
    c_string(var.0 + seq![EQUALS] + var.1)
}

/// The environment vector: the entries of the variables, in their order.
pub open spec fn envp_of(vars: Seq<(Seq<u8>, Seq<u8>)>) -> Seq<Seq<u8>> {
    vars.map_values(|var: (Seq<u8>, Seq<u8>)| env_entry(var))
}

/// Whether a variable holds a NUL byte, in its key or in its value.
pub open spec fn var_has_nul(var: (Seq<u8>, Seq<u8>)) -> bool {
    has_nul(var.0) || has_nul(var.1)
}

impl Default for NixConfig {
    /// No extra arguments, and the caller's environment.
    fn default() -> (r: NixConfig)
        ensures
            r.extra_args@.len() == 0,
            r.vars is None,
    {
        NixConfig { extra_args: Vec::new(), vars: None }
    }
}

impl NixConfig {
    /// The extra arguments, by their contents.
    pub open spec fn extra(&self) -> Seq<Seq<u8>> {
        rows(self.extra_args@)
    }

    /// The variables, by their contents.
    pub open spec fn env(&self) -> Option<Seq<(Seq<u8>, Seq<u8>)>> {
        match self.vars {
            Some(vars) => Some(pairs(vars@)),
            None => None,
        }
    }
}

impl ProcessArgs {
    /// The argument vector, by its contents.
    pub open spec fn args(&self) -> Seq<Seq<u8>> {
        rows(self.argv@)
    }

    /// The environment vector, by its contents.
    pub open spec fn env(&self) -> Option<Seq<Seq<u8>>> {
        match self.envp {
            Some(envp) => Some(rows(envp@)),
            None => None,
        }
    }

    /// Whether every entry of both vectors is a C string, and the argument
    /// vector names a program.
    pub open spec fn wf(&self) -> bool {
        &&& self.args().len() > 0
        &&& all_c_strings(self.args())
        &&& self.env() is Some ==> all_c_strings(self.env()->Some_0)
    }
}

/// Whether `e` names the first string that holds a NUL byte, going through
/// the prefix, the extra arguments and the variables in this order.
pub open spec fn first_fault(
    prefix: Seq<u8>,
    extra: Seq<Seq<u8>>,
    vars: Option<Seq<(Seq<u8>, Seq<u8>)>>,
    e: ConfigError,
) -> bool {
    match e {
        ConfigError::PluginPrefix => has_nul(prefix),
        ConfigError::ExtraArg(i) => {
            &&& !has_nul(prefix)
            &&& i < extra.len()
            &&& has_nul(extra[i as int])
            &&& (forall|j: int| 0 <= j < i ==> !has_nul(#[trigger] extra[j]))
        },
        ConfigError::Variable(i) => {
            &&& !has_nul(prefix)
            &&& (forall|j: int| 0 <= j < extra.len() ==> !has_nul(#[trigger] extra[j]))
            &&& vars is Some
            &&& i < vars->Some_0.len()
            &&& var_has_nul(vars->Some_0[i as int])
            &&& (forall|j: int| 0 <= j < i ==> !var_has_nul(#[trigger] vars->Some_0[j]))
        },
    }
}

/// Whether no string of a configuration holds a NUL byte.
pub open spec fn faultless(
    prefix: Seq<u8>,
    extra: Seq<Seq<u8>>,
    vars: Option<Seq<(Seq<u8>, Seq<u8>)>>,
) -> bool {
    &&& !has_nul(prefix)
    &&& (forall|j: int| 0 <= j < extra.len() ==> !has_nul(#[trigger] extra[j]))
    &&& vars is Some ==> forall|j: int|
        0 <= j < vars->Some_0.len() ==> !var_has_nul(#[trigger] vars->Some_0[j])
}

/// The text of a string literal that is plain ASCII without a NUL character
/// holds no NUL byte.
proof fn lemma_text_without_nul(text: &str)
    requires
        forall|i: int| 0 <= i < text@.len() ==> '\u{1}' <= #[trigger] text@[i] <= '\u{7f}',
    ensures
        !has_nul(text.spec_bytes()),
{
    vstd::string::is_ascii_spec_bytes(text);
    assert(vstd::string::is_ascii(text));
    let bytes = text.spec_bytes();
    assert forall|i: int| 0 <= i < bytes.len() implies bytes[i] != NUL by {
        assert(bytes[i] == text@[i] as u8);
    }
}

/// The fixed texts of the argument vector hold no NUL byte.
pub proof fn lemma_fixed_args_without_nul()
    ensures
        forall|i: int| 0 <= i < leading_args().len() ==> !has_nul(#[trigger] leading_args()[i]),
        !has_nul("/lib/nix/plugins".spec_bytes()),
        !has_nul(subcommand()),
{
    reveal_strlit("nix");
    reveal_strlit("--extra-experimental-features");
    reveal_strlit("nix-command");
    reveal_strlit("--extra-plugin-files");
    reveal_strlit("/lib/nix/plugins");
    reveal_strlit("ffi-helper");
    lemma_text_without_nul("nix");
    lemma_text_without_nul("--extra-experimental-features");
    lemma_text_without_nul("nix-command");
    lemma_text_without_nul("--extra-plugin-files");
    lemma_text_without_nul("/lib/nix/plugins");
    lemma_text_without_nul("ffi-helper");
}

/// A byte string without a NUL byte becomes a C string by [`c_string`].
pub proof fn lemma_c_string(s: Seq<u8>)
    requires
        !has_nul(s),
    ensures
        is_c_string(c_string(s)),
{
    assert(c_string(s).drop_last() =~= s);
}

/// Whether every entry of a vector is a C string.
pub open spec fn all_c_strings(entries: Seq<Seq<u8>>) -> bool {
    forall|i: int| 0 <= i < entries.len() ==> is_c_string(#[trigger] entries[i])
}

/// Where neither the prefix nor an extra argument holds a NUL byte, every
/// entry of the argument vector is a C string.
pub proof fn lemma_argv_holds_c_strings(prefix: Seq<u8>, extra: Seq<Seq<u8>>)
    requires
        faultless(prefix, extra, None),
    ensures
        argv_of(prefix, extra).len() == extra.len() + 6,
        all_c_strings(argv_of(prefix, extra)),
{
    lemma_fixed_args_without_nul();
    let plain = (leading_args().push(plugin_dir(prefix)) + extra).push(subcommand());
    assert forall|i: int| 0 <= i < plain.len() implies !has_nul(#[trigger] plain[i]) by {
        if i < 4 {
            assert(plain[i] == leading_args()[i]);
        } else if i == 4 {
            let dir = plugin_dir(prefix);
            let tail = "/lib/nix/plugins".spec_bytes();
            assert forall|k: int| 0 <= k < dir.len() implies dir[k] != NUL by {
                if k < prefix.len() {
                    assert(dir[k] == prefix[k]);
                } else {
                    assert(dir[k] == tail[k - prefix.len()]);
                }
            }
        } else if i < 5 + extra.len() {
            assert(plain[i] == extra[i - 5]);
        } else {
            assert(plain[i] == subcommand());
        }
    }
    assert forall|i: int| 0 <= i < argv_of(prefix, extra).len() implies is_c_string(
        #[trigger] argv_of(prefix, extra)[i],
    ) by {
        assert(argv_of(prefix, extra)[i] == c_string(plain[i]));
        lemma_c_string(plain[i]);
    }
}

/// Where no variable holds a NUL byte, every entry of the environment
/// vector is a C string.
pub proof fn lemma_envp_holds_c_strings(vars: Seq<(Seq<u8>, Seq<u8>)>)
    requires
        forall|j: int| 0 <= j < vars.len() ==> !var_has_nul(#[trigger] vars[j]),
    ensures
        envp_of(vars).len() == vars.len(),
        all_c_strings(envp_of(vars)),
{
    assert forall|i: int| 0 <= i < vars.len() implies is_c_string(#[trigger] envp_of(vars)[i]) by {
        let var = vars[i];
        let text = var.0 + seq![EQUALS] + var.1;
        assert(!var_has_nul(var));
        assert forall|k: int| 0 <= k < text.len() implies text[k] != NUL by {
            if k < var.0.len() {
                assert(text[k] == var.0[k]);
            } else if k == var.0.len() {
                assert(text[k] == EQUALS);
            } else {
                assert(text[k] == var.1[k - var.0.len() - 1]);
            }
        }
        lemma_c_string(text);
    }
}

/// Whether a byte string holds a NUL byte.
pub fn holds_nul(bytes: &[u8]) -> (r: bool)
    ensures
        r == has_nul(bytes@),
{
    let mut i: usize = 0;
    while i < bytes.len()
        invariant
            i <= bytes@.len(),
            forall|j: int| 0 <= j < i ==> bytes@[j] != NUL,
        decreases bytes@.len() - i,
    {
        if bytes[i] == NUL {
            return true;
        }
        i = i + 1;
    }
    false
}

/// A copy of `text` with the NUL byte that ends a C string.
pub fn to_c_string(text: &[u8]) -> (r: Vec<u8>)
    ensures
        r@ == c_string(text@),
{
    let mut r = slice_to_vec(text);
    r.push(NUL);
    r
}

/// The entry of the environment vector for a key and a value.
pub fn to_env_entry(key: &[u8], value: &[u8]) -> (r: Vec<u8>)
    ensures
        r@ == env_entry((key@, value@)),
{
    let mut r = slice_to_vec(key);
    r.push(EQUALS);
    append(&mut r, value);
    r.push(NUL);
    r
}

impl NixConfig {
    /// Builds the vectors for a worker whose plugin is installed below
    /// `plugin_prefix`, or names the first string that holds a NUL byte.
    pub fn process_args(&self, plugin_prefix: &[u8]) -> (r: Result<ProcessArgs, ConfigError>)
        ensures
            match r {
                Ok(built) => {
                    &&& built.wf()
                    &&& faultless(plugin_prefix@, self.extra(), self.env())
                    &&& built.args() == argv_of(plugin_prefix@, self.extra())
                    &&& built.env() == match self.env() {
                        Some(vars) => Some(envp_of(vars)),
                        None => None,
                    }
                },
                Err(e) => first_fault(plugin_prefix@, self.extra(), self.env(), e),
            },
    {
        if holds_nul(plugin_prefix) {
            return Err(ConfigError::PluginPrefix);
        }
        let ghost extra = self.extra();
        let ghost head = leading_args().push(plugin_dir(plugin_prefix@)).map_values(
            |s: Seq<u8>| c_string(s),
        );
        let mut argv: Vec<Vec<u8>> = Vec::new();
        argv.push(to_c_string("nix".as_bytes()));
        argv.push(to_c_string("--extra-experimental-features".as_bytes()));
        argv.push(to_c_string("nix-command".as_bytes()));
        argv.push(to_c_string("--extra-plugin-files".as_bytes()));
        let mut dir = slice_to_vec(plugin_prefix);
        append(&mut dir, "/lib/nix/plugins".as_bytes());
        dir.push(NUL);
        argv.push(dir);
        assert(rows(argv@) =~= head);
        let mut i: usize = 0;
        while i < self.extra_args.len()
            invariant
                i <= self.extra_args@.len(),
                extra == self.extra(),
                !has_nul(plugin_prefix@),
                rows(argv@) == head + extra.subrange(0, i as int).map_values(
                    |s: Seq<u8>| c_string(s),
                ),
                forall|j: int| 0 <= j < i ==> !has_nul(#[trigger] extra[j]),
            decreases self.extra_args@.len() - i,
        {
            let arg = &self.extra_args[i];
            if holds_nul(arg.as_slice()) {
                return Err(ConfigError::ExtraArg(i));
            }
            let ghost before = rows(argv@);
            argv.push(to_c_string(arg.as_slice()));
            proof {
                assert(rows(argv@) =~= before.push(c_string(extra[i as int])));
                assert(extra.subrange(0, i + 1).map_values(|s: Seq<u8>| c_string(s))
                    =~= extra.subrange(0, i as int).map_values(|s: Seq<u8>| c_string(s)).push(
                    c_string(extra[i as int]),
                ));
            }
            i = i + 1;
        }
        let ghost before = rows(argv@);
        argv.push(to_c_string("ffi-helper".as_bytes()));
        proof {
            assert(extra.subrange(0, i as int) =~= extra);
            assert(rows(argv@) =~= before.push(c_string(subcommand())));
            assert(rows(argv@) =~= argv_of(plugin_prefix@, extra));
        }
        let envp = match &self.vars {
            None => None,
            Some(vars) => {
                let ghost vs = pairs(vars@);
                let mut entries: Vec<Vec<u8>> = Vec::new();
                let mut k: usize = 0;
                assert(rows(entries@) =~= envp_of(vs.subrange(0, 0)));
                while k < vars.len()
                    invariant
                        k <= vars@.len(),
                        vs == pairs(vars@),
                        self.env() == Some(vs),
                        !has_nul(plugin_prefix@),
                        forall|j: int| 0 <= j < extra.len() ==> !has_nul(#[trigger] extra[j]),
                        extra == self.extra(),
                        rows(entries@) == envp_of(vs.subrange(0, k as int)),
                        forall|j: int| 0 <= j < k ==> !var_has_nul(#[trigger] vs[j]),
                    decreases vars@.len() - k,
                {
                    let var = &vars[k];
                    if holds_nul(var.0.as_slice()) || holds_nul(var.1.as_slice()) {
                        return Err(ConfigError::Variable(k));
                    }
                    let ghost before = rows(entries@);
                    entries.push(to_env_entry(var.0.as_slice(), var.1.as_slice()));
                    proof {
                        assert(rows(entries@) =~= before.push(env_entry(vs[k as int])));
                        assert(envp_of(vs.subrange(0, k + 1)) =~= envp_of(
                            vs.subrange(0, k as int),
                        ).push(env_entry(vs[k as int])));
                    }
                    k = k + 1;
                }
                assert(vs.subrange(0, k as int) =~= vs);
                Some(entries)
            },
        };
        proof {
            lemma_argv_holds_c_strings(plugin_prefix@, extra);
            if self.env() is Some {
                lemma_envp_holds_c_strings(self.env()->Some_0);
            }
        }
        Ok(ProcessArgs { argv, envp })
    }
}

} // verus!
