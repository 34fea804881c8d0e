//! Where the external programs and the rules file are found.

use vstd::prelude::*;
use crate::process::{Invocation, InvocationView};
use crate::text::{join_path, joined, texts};

verus! {

/// Paths of the external programs and of the rules file.
#[derive(Debug, PartialEq, Eq)]
pub struct Config {
    pub age_bin: String,
    pub nix_instantiate: String,
    pub mktemp_bin: String,
    pub diff_bin: String,
    pub rules_path: String,
}

/// The mathematical content of a [`Config`].
pub struct ConfigView {
    pub age_bin: Seq<char>,
    pub nix_instantiate: Seq<char>,
    pub mktemp_bin: Seq<char>,
    pub diff_bin: Seq<char>,
    pub rules_path: Seq<char>,
}

impl View for Config {
    type V = ConfigView;

    open spec fn view(&self) -> ConfigView {
        ConfigView {
            age_bin: self.age_bin@,
            nix_instantiate: self.nix_instantiate@,
            mktemp_bin: self.mktemp_bin@,
            diff_bin: self.diff_bin@,
            rules_path: self.rules_path@,
        }
    }
}

/// The configuration used where nothing is overridden.
pub open spec fn default_config() -> ConfigView {
    ConfigView {
        age_bin: "age"@,
        nix_instantiate: "nix-instantiate"@,
        mktemp_bin: "mktemp"@,
        diff_bin: "diff"@,
        rules_path: "./secrets.nix"@,
    }
}

/// The two well-known private keys under the home directory `home`, the RSA
/// key before the Ed25519 key.
pub open spec fn identity_candidates(home: Seq<char>) -> Seq<Seq<char>> {
    seq![joined(home, ".ssh/id_rsa"@), joined(home, ".ssh/id_ed25519"@)]
}

/// The well-known keys that are present, in their fixed order. Without a home
/// directory there are none.
pub open spec fn default_identities(
    home: Option<Seq<char>>,
    rsa_present: bool,
    ed25519_present: bool,
) -> Seq<Seq<char>> {
    match home {
        None => Seq::empty(),
        Some(dir) => {
            let rsa = if rsa_present {
                seq![joined(dir, ".ssh/id_rsa"@)]
            } else {
                Seq::empty()
            };
            let ed = if ed25519_present {
                seq![joined(dir, ".ssh/id_ed25519"@)]
            } else {
                Seq::empty()
            };
            rsa + ed
        },
    }
}

/// The call that asks the program at `path` for its version.
pub open spec fn version_probe(path: Seq<char>) -> InvocationView {
    InvocationView { program: path, args: seq!["--version"@], input: None, capture: true }
}

/// How a program that did not answer is reported: its name, then its
/// configured path in round brackets.
pub open spec fn missing_entry(name: Seq<char>, path: Seq<char>) -> Seq<char> {
    name + " ("@ + path + ")"@
}

/// The programs that did not answer their version probe, age first.
pub open spec fn missing_dependencies(
    config: ConfigView,
    age_answered: bool,
    nix_answered: bool,
) -> Seq<Seq<char>> {
    let age = if age_answered {
        Seq::empty()
    } else {
        seq![missing_entry("age"@, config.age_bin)]
    };
    let nix = if nix_answered {
        Seq::empty()
    } else {
        seq![missing_entry("nix-instantiate"@, config.nix_instantiate)]
    };
    age + nix
}

impl Clone for Config {
    fn clone(&self) -> (copy: Config)
        ensures
            copy@ == self@,
    {
        Config {
            age_bin: self.age_bin.clone(),
            nix_instantiate: self.nix_instantiate.clone(),
            mktemp_bin: self.mktemp_bin.clone(),
            diff_bin: self.diff_bin.clone(),
            rules_path: self.rules_path.clone(),
        }
    }
}

impl Default for Config {
    fn default() -> (config: Config)
        ensures
            config@ == default_config(),
    {
        Config {
            age_bin: "age".to_owned(),
            nix_instantiate: "nix-instantiate".to_owned(),
            mktemp_bin: "mktemp".to_owned(),
            diff_bin: "diff".to_owned(),
            rules_path: "./secrets.nix".to_owned(),
        }
    }
}

/// One line of the list of missing programs.
fn missing_line(name: &str, path: &str) -> (line: String)
    ensures
        line@ == missing_entry(name@, path@),
{
    let mut line: String = name.to_owned();
    line.append(" (");
    line.append(path);
    line.append(")");
    line
}

impl Config {
    /// The default configuration.
    pub fn new() -> (config: Config)
        ensures
            config@ == default_config(),
    {
        Config {
            age_bin: "age".to_owned(),
            nix_instantiate: "nix-instantiate".to_owned(),
            mktemp_bin: "mktemp".to_owned(),
            diff_bin: "diff".to_owned(),
            rules_path: "./secrets.nix".to_owned(),
        }
    }

    /// The same configuration with another path for age.
    pub fn with_age_bin(self, age_bin: &str) -> (config: Config)
        ensures
            config@ == (ConfigView { age_bin: age_bin@, ..self@ }),
    {
        let mut config = self;
        config.age_bin = age_bin.to_owned();
        config
    }

    /// The same configuration with another path for nix-instantiate.
    pub fn with_nix_instantiate(self, nix_instantiate: &str) -> (config: Config)
        ensures
            config@ == (ConfigView { nix_instantiate: nix_instantiate@, ..self@ }),
    {
        let mut config = self;
        config.nix_instantiate = nix_instantiate.to_owned();
        config
    }

    /// The same configuration with another rules file.
    pub fn with_rules_path(self, rules_path: &str) -> (config: Config)
        ensures
            config@ == (ConfigView { rules_path: rules_path@, ..self@ }),
    {
        let mut config = self;
        config.rules_path = rules_path.to_owned();
        config
    }

    /// The same configuration with the rules file replaced where the caller
    /// has an override for it, and unchanged where it has none.
    pub fn with_rules_override(self, rules_path: Option<&str>) -> (config: Config)
        ensures
            config@ == match rules_path {
                Some(path) => (ConfigView { rules_path: path@, ..self@ }),
                None => self@,
            },
    {
        match rules_path {
            Some(path) => self.with_rules_path(path),
            None => self,
        }
    }

    /// The path of age.
    pub fn age_bin(&self) -> (path: &str)
        ensures
            path@ == self@.age_bin,
    {
        self.age_bin.as_str()
    }

    /// The path of nix-instantiate.
    pub fn nix_instantiate(&self) -> (path: &str)
        ensures
            path@ == self@.nix_instantiate,
    {
        self.nix_instantiate.as_str()
    }

    /// The path of the rules file.
    pub fn rules_path(&self) -> (path: &str)
        ensures
            path@ == self@.rules_path,
    {
        self.rules_path.as_str()
    }

    /// Where the two well-known private keys would lie under `home`: the
    /// RSA key, then the Ed25519 key.
    pub fn default_identity_candidates(home: &str) -> (paths: Vec<String>)
        ensures
            texts(paths@) == identity_candidates(home@),
    {
        let mut paths: Vec<String> = Vec::new();
        paths.push(join_path(home, ".ssh/id_rsa"));
        paths.push(join_path(home, ".ssh/id_ed25519"));
        paths
    }

    /// The identities to try where the caller named none: those of the two
    /// well-known keys under `home` that the caller found present, the RSA
    /// key before the Ed25519 key.
    pub fn get_default_identities(
        home: Option<&str>,
        rsa_present: bool,
        ed25519_present: bool,
    ) -> (paths: Vec<String>)
        ensures
            texts(paths@) == default_identities(
                match home {
                    Some(dir) => Some(dir@),
                    None => None,
                },
                rsa_present,
                ed25519_present,
            ),
            paths.len() <= 2,
    {
        let mut paths: Vec<String> = Vec::new();
        match home {
            Some(dir) => {
                if rsa_present {
                    paths.push(join_path(dir, ".ssh/id_rsa"));
                }
                if ed25519_present {
                    paths.push(join_path(dir, ".ssh/id_ed25519"));
                }
            },
            None => {},
        }
        paths
    }

    /// The version probes that must be answered before any command runs:
    /// age, then nix-instantiate.
    pub fn dependency_probes(&self) -> (probes: Vec<Invocation>)
        ensures
            probes.len() == 2,
            probes[0]@ == version_probe(self@.age_bin),
            probes[1]@ == version_probe(self@.nix_instantiate),
    {
        let mut probes: Vec<Invocation> = Vec::new();
        let mut age_args: Vec<String> = Vec::new();
        age_args.push("--version".to_owned());
        assert(texts(age_args@) =~= seq!["--version"@]);
        probes.push(
            Invocation {
                program: self.age_bin.clone(),
                args: age_args,
                input: None,
                capture: true,
            },
        );
        let mut nix_args: Vec<String> = Vec::new();
        nix_args.push("--version".to_owned());
        assert(texts(nix_args@) =~= seq!["--version"@]);
        probes.push(
            Invocation {
                program: self.nix_instantiate.clone(),
                args: nix_args,
                input: None,
                capture: true,
            },
        );
        probes
    }

    /// Judges the version probes. All is well where both programs answered;
    /// otherwise the error lists each program that did not, age first, by
    /// name and configured path.
    pub fn validate_dependencies(&self, age_answered: bool, nix_answered: bool) -> (outcome: Result<
        (),
        Vec<String>,
    >)
        ensures
            outcome is Ok <==> age_answered && nix_answered,
            outcome matches Err(missing) ==> texts(missing@) == missing_dependencies(
                self@,
                age_answered,
                nix_answered,
            ),
    {
        let mut missing: Vec<String> = Vec::new();
        if !age_answered {
            missing.push(missing_line("age", self.age_bin.as_str()));
        }
        if !nix_answered {
            missing.push(missing_line("nix-instantiate", self.nix_instantiate.as_str()));
        }
        if missing.len() == 0 {
            Ok(())
        } else {
            Err(missing)
        }
    }
}

} // verus!
