//! Adding a package to a project from a template.  The evaluator scaffolds
//! generic template files into the working tree; this module post-processes
//! them: the plan function decides, from what was found on disk, which
//! files are rewritten, moved and staged, and the rewrite functions compute
//! the new file contents.

use vstd::prelude::*;

use crate::access::GitAccess;
use crate::paths::joined;
use crate::paths::join_path;
use crate::project::Project;

verus! {

/// The result of rewriting the first `pname` declaration of a template.
pub uninterp spec fn pname_replaced(contents: Seq<char>, name: Seq<char>) -> Seq<char>;

/// Relies on `regex::Regex::replace` with the pattern `pname = ".*"`:
/// rewrites the first `pname` declaration of `contents` to declare `name`;
/// the result depends on the two strings alone.
#[verifier::external_body]
fn replace_pname_declaration(contents: &str, name: &str) -> (r: String)
    ensures
        r@ == pname_replaced(contents@, name@),
{
    let re = regex::Regex::new("pname = \".*\"").unwrap();
    re.replace(contents, format!("pname = \"{name}\"").as_str()).into_owned()
}

/// Greedy left-to-right replacement of every non-overlapping occurrence of
/// `pat` in `s` by `rep`.
pub open spec fn replaced(s: Seq<u8>, pat: Seq<u8>, rep: Seq<u8>) -> Seq<u8>
    decreases s.len(),
{
    if pat.len() == 0 || s.len() == 0 {
        s
    } else if s.len() < pat.len() {
        s
    } else if s.take(pat.len() as int) == pat {
        rep + replaced(s.skip(pat.len() as int), pat, rep)
    } else {
        seq![s[0]] + replaced(s.skip(1), pat, rep)
    }
}

/// The placeholder package name the generic templates use.
pub open spec fn placeholder() -> Seq<u8> {
    seq![95u8, 95u8, 80u8, 65u8, 67u8, 75u8, 65u8, 71u8, 69u8, 95u8, 78u8, 65u8, 77u8, 69u8, 95u8, 95u8]
}

/// The placeholder's bytes: `__PACKAGE_NAME__`.
pub fn placeholder_bytes() -> (r: Vec<u8>)
    ensures
        r@ == placeholder(),
{
    let mut v: Vec<u8> = Vec::new();
    v.push(95u8);
    v.push(95u8);
    v.push(80u8);
    v.push(65u8);
    v.push(67u8);
    v.push(75u8);
    v.push(65u8);
    v.push(71u8);
    v.push(69u8);
    v.push(95u8);
    v.push(78u8);
    v.push(65u8);
    v.push(77u8);
    v.push(69u8);
    v.push(95u8);
    v.push(95u8);
    proof {
        assert(v@ =~= placeholder());
    }
    v
}

fn match_at(s: &Vec<u8>, pat: &Vec<u8>, i: usize) -> (b: bool)
    requires
        i + pat@.len() <= s@.len(),
    ensures
        b == (s@.subrange(i as int, i as int + pat@.len() as int) == pat@),
{
    let n = s.len();
    let pl = pat.len();
    let mut j: usize = 0;
    while j < pl
        invariant
            n == s@.len(),
            pl == pat@.len(),
            i + pl <= n,
            j <= pl,
            forall|t: int| 0 <= t < j ==> s@[i + t] == pat@[t],
        decreases pl - j,
    {
        if s[i + j] != pat[j] {
            proof {
                assert(s@.subrange(i as int, i as int + pl as int)[j as int] != pat@[j as int]);
            }
            return false;
        }
        j = j + 1;
    }
    proof {
        assert(s@.subrange(i as int, i as int + pl as int) =~= pat@);
    }
    true
}

proof fn lemma_replaced_copy(s: Seq<u8>, pat: Seq<u8>, rep: Seq<u8>)
    requires
        0 < pat.len(),
        0 < s.len(),
        s.len() < pat.len() || s.take(pat.len() as int) != pat,
    ensures
        replaced(s, pat, rep) == seq![s[0]] + replaced(s.skip(1), pat, rep),
{
    if s.len() < pat.len() {
        assert(replaced(s, pat, rep) == s);
        assert(s.skip(1).len() < pat.len());
        assert(replaced(s.skip(1), pat, rep) == s.skip(1));
        assert(seq![s[0]] + s.skip(1) =~= s);
    }
}

/// Replace every occurrence of `pat` in `s` by `rep`, greedily from the
/// left, without overlap.
pub fn replace_all_bytes(s: &Vec<u8>, pat: &Vec<u8>, rep: &Vec<u8>) -> (r: Vec<u8>)
    requires
        pat@.len() > 0,
    ensures
        r@ == replaced(s@, pat@, rep@),
{
    let n = s.len();
    let pl = pat.len();
    let rl = rep.len();
    let mut out: Vec<u8> = Vec::new();
    let mut i: usize = 0;
    proof {
        assert(s@.skip(0) =~= s@);
        assert(out@ + replaced(s@, pat@, rep@) =~= replaced(s@, pat@, rep@));
    }
    while i < n
        invariant
            n == s@.len(),
            pl == pat@.len(),
            rl == rep@.len(),
            pl > 0,
            i <= n,
            replaced(s@, pat@, rep@) == out@ + replaced(s@.skip(i as int), pat@, rep@),
        decreases n - i,
    {
        let ghost i0 = i as int;
        let ghost tail = s@.skip(i0);
        let mut matched = false;
        if pl <= n && i <= n - pl {
            matched = match_at(s, pat, i);
        }
        if matched {
            let ghost out0 = out@;
            proof {
                assert(tail.take(pl as int) =~= s@.subrange(i0, i0 + pl as int));
                assert(replaced(tail, pat@, rep@) == rep@ + replaced(
                    tail.skip(pl as int),
                    pat@,
                    rep@,
                ));
                assert(tail.skip(pl as int) =~= s@.skip(i0 + pl as int));
            }
            let mut k: usize = 0;
            while k < rl
                invariant
                    rl == rep@.len(),
                    k <= rl,
                    out@ == out0 + rep@.take(k as int),
                decreases rl - k,
            {
                out.push(rep[k]);
                proof {
                    assert(out@ =~= out0 + rep@.take(k + 1));
                }
                k = k + 1;
            }
            proof {
                assert(rep@.take(rl as int) =~= rep@);
                assert((out0 + rep@) + replaced(s@.skip(i0 + pl as int), pat@, rep@) =~= out0 + (
                rep@ + replaced(s@.skip(i0 + pl as int), pat@, rep@)));
            }
            i = i + pl;
        } else {
            proof {
                if i0 + pl <= n {
                    assert(tail.take(pl as int) =~= s@.subrange(i0, i0 + pl as int));
                } else {
                    assert(tail.len() < pl);
                }
                lemma_replaced_copy(tail, pat@, rep@);
                assert(tail[0] == s@[i0]);
                assert(tail.skip(1) =~= s@.skip(i0 + 1));
            }
            let ghost outp = out@;
            out.push(s[i]);
            proof {
                assert(out@ =~= outp + seq![s@[i0]]);
                assert((outp + seq![s@[i0]]) + replaced(s@.skip(i0 + 1), pat@, rep@) =~= outp + (
                seq![s@[i0]] + replaced(s@.skip(i0 + 1), pat@, rep@)));
            }
            i = i + 1;
        }
    }
    proof {
        assert(s@.skip(n as int) =~= Seq::<u8>::empty());
        assert(replaced(Seq::<u8>::empty(), pat@, rep@) == Seq::<u8>::empty());
        assert(out@ + Seq::<u8>::empty() =~= out@);
    }
    out
}

/// Expand the generic template: replace every placeholder occurrence in one
/// file's contents by the chosen package name.
pub fn expand_package_name(contents: &Vec<u8>, name: &Vec<u8>) -> (r: Vec<u8>)
    ensures
        r@ == replaced(contents@, placeholder(), name@),
{
    let pat = placeholder_bytes();
    replace_all_bytes(contents, &pat, name)
}

/// What probing the scaffolded working tree for a template file found.
pub enum TemplateProbe {
    /// The legacy template file existed; its contents.
    LegacyTemplate(String),
    /// No legacy template file; whether the placeholder-named package
    /// directory exists instead.
    NoTemplateFile(bool),
    /// The legacy template file exists but reading its contents failed.
    ReadFailed(String),
    /// Opening the template file failed for another reason.
    ProbeFailed(String),
}

/// One step of post-processing a scaffolded package.
#[derive(Debug)]
pub enum PackageStep {
    /// Create a directory and its missing ancestors.
    CreateDirAll(String),
    /// Remove the legacy template file through version control.
    GitRemoveFile(String),
    /// Write a file with the given contents.
    WriteFile(String, String),
    /// Stage a path in version control.
    GitAdd(String),
    /// Move a path through version control.
    GitMove(String, String),
    /// Expand the placeholder to the package name in every file under the
    /// path, each rewrite computed by [`expand_package_name`].
    ReplacePlaceholder(String),
}

/// Failure while adding a package from a template.
#[derive(Debug)]
pub enum InitFloxPackageError {
    /// The repository reported no working directory.
    WorkdirNotFound,
    /// The evaluator failed to scaffold the template.
    NixInit(String),
    /// Opening the template file failed.
    OpenTemplateFile(String),
    /// Reading the template file failed.
    ReadTemplateFile(String),
    /// Writing the rewritten template failed.
    WriteTemplateFile(String),
    /// Creating the named package directory failed.
    MkNamedDir(String),
    /// Opening the renamed file for writing failed.
    OpenNamed(String),
    /// Removing the unnamed template file through version control failed.
    RemoveUnnamedFile(String),
    /// Staging through version control failed.
    GitAdd(String),
    /// Moving through version control failed.
    GitMv(String),
    /// Expanding the placeholder failed.
    ReplacePackageName(String),
}

/// The template whose scaffold leaves a bare project manifest fragment to
/// stage instead of a package.
pub fn project_template_name() -> (r: String)
    ensures
        r@ == "flake:flox#.\"templates\".\"project\""@,
{
    "flake:flox#.\"templates\".\"project\"".to_owned()
}

impl<'flox, G: Clone, Access: GitAccess<G>> Project<'flox, G, Access> {
    /// Add a package scaffolded from `template` under the name `name`.
    /// `nix_init` is the outcome of asking the evaluator to expand the
    /// template into the working tree; `probe` what a look at the scaffolded
    /// tree found.  The result is the list of post-processing steps to
    /// perform, in order: a legacy template file is rewritten to declare
    /// `name` and moved under the named package directory; a
    /// placeholder-named package directory is renamed and its files
    /// expanded; a bare project template only has its manifest fragment
    /// staged.
    pub fn init_flox_package(
        &self,
        template: &String,
        name: &str,
        nix_init: Result<(), String>,
        probe: TemplateProbe,
    ) -> (r: Result<Vec<PackageStep>, InitFloxPackageError>)
        ensures
            nix_init matches Err(e) ==> (r matches Err(InitFloxPackageError::NixInit(m)) && m
                == e),
            nix_init is Ok ==> (probe matches TemplateProbe::ProbeFailed(pm) ==> (r matches Err(
                InitFloxPackageError::OpenTemplateFile(m),
            ) && m == pm)),
            nix_init is Ok ==> (probe matches TemplateProbe::ReadFailed(pm) ==> (r matches Err(
                InitFloxPackageError::ReadTemplateFile(m),
            ) && m == pm)),
            nix_init is Ok ==> (probe matches TemplateProbe::LegacyTemplate(contents) ==> (
            r matches Ok(v) && v@.len() == 4 && (v@[0] matches PackageStep::CreateDirAll(d) && d@
                == joined(self.workdir@, joined("pkgs"@, name@))) && (
            v@[1] matches PackageStep::GitRemoveFile(o) && o@ == joined(
                self.workdir@,
                joined("pkgs"@, "default.nix"@),
            )) && (v@[2] matches PackageStep::WriteFile(f, c) && f@ == joined(
                joined(self.workdir@, joined("pkgs"@, name@)),
                "default.nix"@,
            ) && c@ == pname_replaced(contents@, name@)) && (v@[3] matches PackageStep::GitAdd(a)
                && a@ == joined(joined(self.workdir@, joined("pkgs"@, name@)), "default.nix"@)))),
            nix_init is Ok ==> (probe matches TemplateProbe::NoTemplateFile(exists) ==> (exists
                ==> (r matches Ok(v) && v@.len() == 3 && (v@[0] matches PackageStep::GitMove(
                f,
                t,
            ) && f@ == joined(self.workdir@, joined("pkgs"@, "__PACKAGE_NAME__"@)) && t@ == joined(
                self.workdir@,
                joined("pkgs"@, name@),
            )) && (v@[1] matches PackageStep::ReplacePlaceholder(p) && p@ == joined(
                self.workdir@,
                joined("pkgs"@, name@),
            )) && (v@[2] matches PackageStep::GitAdd(a) && a@ == joined(
                self.workdir@,
                joined("pkgs"@, name@),
            ))))),
            nix_init is Ok ==> (probe matches TemplateProbe::NoTemplateFile(exists) ==> (!exists
                ==> (r matches Ok(v) && (template@ == "flake:flox#.\"templates\".\"project\""@
                ==> v@.len() == 1 && (v@[0] matches PackageStep::GitAdd(a) && a@ == joined(
                self.workdir@,
                "flox.nix"@,
            ))) && (template@ != "flake:flox#.\"templates\".\"project\""@ ==> v@.len() == 0)))),
    {
        if let Err(e) = nix_init {
            return Err(InitFloxPackageError::NixInit(e));
        }
        match probe {
            TemplateProbe::ProbeFailed(m) => Err(InitFloxPackageError::OpenTemplateFile(m)),
            TemplateProbe::ReadFailed(m) => Err(InitFloxPackageError::ReadTemplateFile(m)),
            TemplateProbe::LegacyTemplate(contents) => {
                let pkgs_rel = join_path("pkgs", name);
                let new_dir = join_path(self.workdir.as_str(), pkgs_rel.as_str());
                let old_file = join_path(
                    self.workdir.as_str(),
                    join_path("pkgs", "default.nix").as_str(),
                );
                let new_file = join_path(new_dir.as_str(), "default.nix");
                let new_contents = replace_pname_declaration(contents.as_str(), name);
                let mut v: Vec<PackageStep> = Vec::new();
                v.push(PackageStep::CreateDirAll(new_dir));
                v.push(PackageStep::GitRemoveFile(old_file));
                v.push(PackageStep::WriteFile(new_file.clone(), new_contents));
                v.push(PackageStep::GitAdd(new_file));
                Ok(v)
            },
            TemplateProbe::NoTemplateFile(exists) => {
                if exists {
                    let old_proto = join_path(
                        self.workdir.as_str(),
                        join_path("pkgs", "__PACKAGE_NAME__").as_str(),
                    );
                    let new_proto = join_path(
                        self.workdir.as_str(),
                        join_path("pkgs", name).as_str(),
                    );
                    let mut v: Vec<PackageStep> = Vec::new();
                    v.push(PackageStep::GitMove(old_proto, new_proto.clone()));
                    v.push(PackageStep::ReplacePlaceholder(new_proto.clone()));
                    v.push(PackageStep::GitAdd(new_proto));
                    Ok(v)
                } else {
                    let project_template = project_template_name();
                    let mut v: Vec<PackageStep> = Vec::new();
                    if *template == project_template {
                        v.push(
                            PackageStep::GitAdd(join_path(self.workdir.as_str(), "flox.nix")),
                        );
                    }
                    Ok(v)
                }
            },
        }
    }
}

} // verus!
