//! Package records and the parsing of what `pacman` and `yay` print.
use crate::text::{
    after_last, chars_of, fields, join, join_from, lines, segs, split_fields, split_lines,
    split_on, string_of, string_views, trim, trim_chars, views,
};
use vstd::prelude::*;

verus! {

/// One package as a package manager lists it.
#[derive(Debug, Clone)]
pub struct Package {
    pub name: String,
    pub version: String,
    pub description: String,
    pub repository: String,
}

/// The mathematical content of a [`Package`].
pub struct PackageModel {
    pub repository: Seq<char>,
    pub name: Seq<char>,
    pub version: Seq<char>,
    pub description: Seq<char>,
}

impl View for Package {
    type V = PackageModel;

    open spec fn view(&self) -> PackageModel {
        PackageModel {
            repository: self.repository@,
            name: self.name@,
            version: self.version@,
            description: self.description@,
        }
    }
}

pub open spec fn models(v: Seq<Package>) -> Seq<PackageModel> {
    v.map_values(|p: Package| p@)
}

/// A line of `-Sl` output: repository, name, version, then an optional
/// description made of the remaining words joined by single spaces.
pub open spec fn available_entry(line: Seq<char>) -> Option<PackageModel> {
    let parts = fields(line);
    if parts.len() >= 3 {
        Some(
            PackageModel {
                repository: parts[0],
                name: parts[1],
                version: parts[2],
                description: join(parts.subrange(3, parts.len() as int), ' '),
            },
        )
    } else {
        None
    }
}

/// The packages of the lines `ls` of `-Sl` output; lines of fewer than three
/// words are skipped.
pub open spec fn available_list(ls: Seq<Seq<char>>) -> Seq<PackageModel>
    decreases ls.len(),
{
    if ls.len() == 0 {
        Seq::<PackageModel>::empty()
    } else {
        let p = available_list(ls.drop_last());
        match available_entry(ls.last()) {
            Some(m) => p.push(m),
            None => p,
        }
    }
}

/// Parses one line of `-Sl` output.
pub fn parse_available_line(line: &Vec<char>) -> (r: Option<Package>)
    ensures
        match available_entry(line@) {
            Some(m) => r is Some && r->0@ == m,
            None => r is None,
        },
{
    let parts = split_fields(line);
    if parts.len() >= 3 {
        let description = join_from(&parts, 3, ' ');
        Some(
            Package {
                repository: string_of(parts[0].as_slice()),
                name: string_of(parts[1].as_slice()),
                version: string_of(parts[2].as_slice()),
                description: string_of(description.as_slice()),
            },
        )
    } else {
        None
    }
}

/// Parses the output of `-Sl` (all packages of the sync repositories).
pub fn parse_available(stdout: &str) -> (r: Vec<Package>)
    ensures
        models(r@) == available_list(lines(stdout@)),
{
    let text = chars_of(stdout);
    let ls = split_lines(&text);
    let mut out: Vec<Package> = Vec::new();
    let mut i: usize = 0;
    while i < ls.len()
        invariant
            i <= ls@.len(),
            views(ls@) == lines(stdout@),
            models(out@) == available_list(views(ls@).subrange(0, i as int)),
        decreases ls@.len() - i,
    {
        let entry = parse_available_line(&ls[i]);
        proof {
            let t = views(ls@).subrange(0, i as int + 1);
            assert(t.drop_last() =~= views(ls@).subrange(0, i as int));
            assert(t.last() == ls@[i as int]@);
        }
        match entry {
            Some(p) => {
                proof {
                    assert(models(out@.push(p)) =~= models(out@).push(p@));
                }
                out.push(p);
            },
            None => {},
        }
        i += 1;
    }
    proof {
        assert(views(ls@).subrange(0, i as int) =~= views(ls@));
    }
    out
}

/// Parses the output of `-Qq`: one installed package name per line.
pub fn parse_installed(stdout: &str) -> (r: Vec<String>)
    ensures
        string_views(r@) == lines(stdout@),
{
    let text = chars_of(stdout);
    let ls = split_lines(&text);
    let mut out: Vec<String> = Vec::new();
    let mut i: usize = 0;
    while i < ls.len()
        invariant
            i <= ls@.len(),
            views(ls@) == lines(stdout@),
            string_views(out@) == views(ls@).subrange(0, i as int),
        decreases ls@.len() - i,
    {
        let l = string_of(ls[i].as_slice());
        proof {
            assert(views(ls@)[i as int] == ls@[i as int]@);
            assert(l@ == ls@[i as int]@);
            assert(string_views(out@.push(l)) =~= string_views(out@).push(l@));
            assert(views(ls@).subrange(0, i as int + 1) =~= views(ls@).subrange(0, i as int).push(
                l@,
            ));
        }
        out.push(l);
        i += 1;
    }
    proof {
        assert(views(ls@).subrange(0, i as int) =~= views(ls@));
    }
    out
}

/// Installed names written one per line, as `-Qq` prints them, are read
/// back as they were (none may hold a newline or end with a carriage
/// return).
pub proof fn lemma_installed_round_trip(names: Seq<Seq<char>>)
    requires
        forall|i: int| 0 <= i < names.len() ==> !names[i].contains('\n'),
        forall|i: int| 0 <= i < names.len() && names[i].len() > 0 ==> names[i].last() != '\r',
    ensures
        lines(crate::text::one_per_line(names)) == names,
{
    crate::text::lemma_lines_round_trip(names);
}

/// State while reading `-Ss` output: the packages complete so far, and the
/// package whose header line was read last and that still waits for its
/// description line.
pub open spec fn search_step(
    st: (Seq<PackageModel>, Option<PackageModel>),
    line: Seq<char>,
) -> (Seq<PackageModel>, Option<PackageModel>) {
    if line.len() > 0 && line[0] == ' ' {
        match st.1 {
            Some(p) => (
                st.0.push(
                    PackageModel {
                        repository: p.repository,
                        name: p.name,
                        version: p.version,
                        description: trim(line),
                    },
                ),
                None,
            ),
            None => st,
        }
    } else {
        let parts = fields(line);
        if parts.len() > 0 && segs(parts[0], '/').len() >= 2 {
            (
                st.0,
                Some(
                    PackageModel {
                        repository: segs(parts[0], '/')[0],
                        name: segs(parts[0], '/')[1],
                        version: if parts.len() > 1 {
                            parts[1]
                        } else {
                            Seq::<char>::empty()
                        },
                        description: Seq::<char>::empty(),
                    },
                ),
            )
        } else {
            st
        }
    }
}

pub open spec fn search_state(ls: Seq<Seq<char>>) -> (Seq<PackageModel>, Option<PackageModel>)
    decreases ls.len(),
{
    if ls.len() == 0 {
        (Seq::<PackageModel>::empty(), None)
    } else {
        search_step(search_state(ls.drop_last()), ls.last())
    }
}

/// The packages of `-Ss` output: a header line `repository/name version ...`
/// followed by an indented description line makes one package.
pub open spec fn search_list(ls: Seq<Seq<char>>) -> Seq<PackageModel> {
    search_state(ls).0
}

/// Parses the output of `-Ss`.
pub fn parse_search(stdout: &str) -> (r: Vec<Package>)
    ensures
        models(r@) == search_list(lines(stdout@)),
{
    let text = chars_of(stdout);
    let ls = split_lines(&text);
    let mut out: Vec<Package> = Vec::new();
    let mut current: Option<Header> = None;
    let mut i: usize = 0;
    while i < ls.len()
        invariant
            i <= ls@.len(),
            views(ls@) == lines(stdout@),
            models(out@) == search_state(views(ls@).subrange(0, i as int)).0,
            match search_state(views(ls@).subrange(0, i as int)).1 {
                Some(m) => current is Some && current->0.repository@ == m.repository
                    && current->0.name@ == m.name && current->0.version@ == m.version
                    && m.description.len() == 0,
                None => current is None,
            },
        decreases ls@.len() - i,
    {
        let line = &ls[i];
        proof {
            let t = views(ls@).subrange(0, i as int + 1);
            assert(t.drop_last() =~= views(ls@).subrange(0, i as int));
            assert(t.last() == line@);
        }
        if line.len() > 0 && line[0] == ' ' {
            match current {
                Some(h) => {
                    let d = trim_chars(line);
                    let p = Package {
                        repository: string_of(h.repository.as_slice()),
                        name: string_of(h.name.as_slice()),
                        version: string_of(h.version.as_slice()),
                        description: string_of(d.as_slice()),
                    };
                    proof {
                        assert(models(out@.push(p)) =~= models(out@).push(p@));
                    }
                    out.push(p);
                    current = None;
                },
                None => {},
            }
        } else {
            let parts = split_fields(line);
            if parts.len() > 0 {
                let name_parts = split_on(&parts[0], '/');
                proof {
                    assert(views(parts@)[0] == parts@[0]@);
                }
                if name_parts.len() >= 2 {
                    let version = if parts.len() > 1 {
                        slice_copy(&parts[1])
                    } else {
                        Vec::new()
                    };
                    proof {
                        assert(views(name_parts@)[0] == name_parts@[0]@);
                        assert(views(name_parts@)[1] == name_parts@[1]@);
                        if parts.len() > 1 {
                            assert(views(parts@)[1] == parts@[1]@);
                        }
                    }
                    current =
                    Some(
                        Header {
                            repository: slice_copy(&name_parts[0]),
                            name: slice_copy(&name_parts[1]),
                            version,
                        },
                    );
                }
            }
        }
        i += 1;
    }
    proof {
        assert(views(ls@).subrange(0, i as int) =~= views(ls@));
    }
    out
}

/// The header line of a `-Ss` entry whose description is still to come.
struct Header {
    repository: Vec<char>,
    name: Vec<char>,
    version: Vec<char>,
}

fn slice_copy(v: &Vec<char>) -> (r: Vec<char>)
    ensures
        r@ == v@,
{
    vstd::slice::slice_to_vec(v.as_slice())
}

/// Why a package-manager query gave no list.
#[derive(Debug, Clone, Copy, PartialEq, Eq, Structural)]
pub enum PackageError {
    /// The command ran and exited with a failure status.
    CommandFailed,
}

impl PackageError {
    pub fn message(&self) -> (r: &'static str)
        ensures
            r@ == "Package manager command failed"@,
    {
        "Package manager command failed"
    }
}

/// The packages of `-Sl` output, where the command succeeded.
pub fn available_outcome(success: bool, stdout: &str) -> (r: Result<Vec<Package>, PackageError>)
    ensures
        success ==> r is Ok && models(r->Ok_0@) == available_list(lines(stdout@)),
        !success ==> r == Err::<Vec<Package>, PackageError>(PackageError::CommandFailed),
{
    if success {
        Ok(parse_available(stdout))
    } else {
        Err(PackageError::CommandFailed)
    }
}

/// The names of `-Qq` output, where the command succeeded.
pub fn installed_outcome(success: bool, stdout: &str) -> (r: Result<Vec<String>, PackageError>)
    ensures
        success ==> r is Ok && string_views(r->Ok_0@) == lines(stdout@),
        !success ==> r == Err::<Vec<String>, PackageError>(PackageError::CommandFailed),
{
    if success {
        Ok(parse_installed(stdout))
    } else {
        Err(PackageError::CommandFailed)
    }
}

/// The packages of `-Ss` output, where the command succeeded.
pub fn search_outcome(success: bool, stdout: &str) -> (r: Result<Vec<Package>, PackageError>)
    ensures
        success ==> r is Ok && models(r->Ok_0@) == search_list(lines(stdout@)),
        !success ==> r == Err::<Vec<Package>, PackageError>(PackageError::CommandFailed),
{
    if success {
        Ok(parse_search(stdout))
    } else {
        Err(PackageError::CommandFailed)
    }
}

/// The `repository/name` of each package, in order.
pub fn qualified_names(packages: &Vec<Package>) -> (r: Vec<String>)
    ensures
        string_views(r@) == models(packages@).map_values(
            |m: PackageModel| m.repository + seq!['/'] + m.name,
        ),
{
    let mut out: Vec<String> = Vec::new();
    let mut i: usize = 0;
    while i < packages.len()
        invariant
            i <= packages@.len(),
            string_views(out@) == models(packages@).subrange(0, i as int).map_values(
                |m: PackageModel| m.repository + seq!['/'] + m.name,
            ),
        decreases packages@.len() - i,
    {
        let mut q = String::from_str(packages[i].repository.as_str());
        q.append("/");
        q.append(packages[i].name.as_str());
        proof {
            reveal_strlit("/");
            let f = |m: PackageModel| m.repository + seq!['/'] + m.name;
            assert(q@ =~= f(packages@[i as int]@));
            assert(string_views(out@.push(q)) =~= string_views(out@).push(q@));
            assert(models(packages@).subrange(0, i as int + 1).map_values(f) =~= models(
                packages@,
            ).subrange(0, i as int).map_values(f).push(f(packages@[i as int]@)));
        }
        out.push(q);
        i += 1;
    }
    proof {
        assert(models(packages@).subrange(0, i as int) =~= models(packages@));
    }
    out
}

/// Which package-manager binary runs the queries: `yay` where it is
/// installed, else `pacman`.
pub struct PackageManager {
    use_yay: bool,
}

/// The packages of `ps` whose flag in `flags` equals `want`, in order.
pub open spec fn with_flag(ps: Seq<Seq<char>>, flags: Seq<bool>, want: bool) -> Seq<Seq<char>>
    decreases ps.len(),
{
    if ps.len() == 0 || flags.len() == 0 {
        Seq::<Seq<char>>::empty()
    } else {
        let rest = with_flag(ps.drop_last(), flags.drop_last(), want);
        if flags.last() == want {
            rest.push(ps.last())
        } else {
            rest
        }
    }
}

/// `flag` followed by `packages`, where there is at least one package.
pub open spec fn mutation_args(flag: Seq<char>, packages: Seq<Seq<char>>) -> Option<Seq<Seq<char>>> {
    if packages.len() == 0 {
        None
    } else {
        Some(seq![flag] + packages)
    }
}

impl PackageManager {
    /// A manager that runs `yay` when `use_yay` holds (the caller has found
    /// `yay` on the system), else `pacman`.
    pub fn new(use_yay: bool) -> (r: Self)
        ensures
            r.uses_yay() == use_yay,
    {
        PackageManager { use_yay }
    }

    pub closed spec fn uses_yay(&self) -> bool {
        self.use_yay
    }

    /// The binary that runs the queries.
    pub fn get_cmd(&self) -> (r: &'static str)
        ensures
            r@ == (if self.uses_yay() {
                "yay"@
            } else {
                "pacman"@
            }),
    {
        if self.use_yay {
            "yay"
        } else {
            "pacman"
        }
    }

    /// Splits `packages` into those from the AUR and those from the official
    /// repositories; `is_aur[i]` tells where `packages[i]` comes from.
    pub fn separate_packages(&self, packages: &Vec<String>, is_aur: &Vec<bool>) -> (r: (
        Vec<String>,
        Vec<String>,
    ))
        requires
            packages@.len() == is_aur@.len(),
        ensures
            string_views(r.0@) == with_flag(string_views(packages@), is_aur@, true),
            string_views(r.1@) == with_flag(string_views(packages@), is_aur@, false),
    {
        let mut aur: Vec<String> = Vec::new();
        let mut official: Vec<String> = Vec::new();
        let mut i: usize = 0;
        while i < packages.len()
            invariant
                i <= packages@.len(),
                packages@.len() == is_aur@.len(),
                string_views(aur@) == with_flag(
                    string_views(packages@).subrange(0, i as int),
                    is_aur@.subrange(0, i as int),
                    true,
                ),
                string_views(official@) == with_flag(
                    string_views(packages@).subrange(0, i as int),
                    is_aur@.subrange(0, i as int),
                    false,
                ),
            decreases packages@.len() - i,
        {
            let p = packages[i].clone();
            proof {
                assert(string_views(packages@).subrange(0, i as int + 1).drop_last()
                    =~= string_views(packages@).subrange(0, i as int));
                assert(is_aur@.subrange(0, i as int + 1).drop_last() =~= is_aur@.subrange(
                    0,
                    i as int,
                ));
                assert(string_views(aur@.push(p)) =~= string_views(aur@).push(p@));
                assert(string_views(official@.push(p)) =~= string_views(official@).push(p@));
            }
            if is_aur[i] {
                aur.push(p);
            } else {
                official.push(p);
            }
            i += 1;
        }
        proof {
            assert(string_views(packages@).subrange(0, i as int) =~= string_views(packages@));
            assert(is_aur@.subrange(0, i as int) =~= is_aur@);
        }
        (aur, official)
    }

    /// The arguments that install `packages` (`-S` and the names), or `None`
    /// when there is nothing to install.
    pub fn install_args(&self, packages: &Vec<String>) -> (r: Option<Vec<String>>)
        ensures
            match mutation_args("-S"@, string_views(packages@)) {
                Some(a) => r is Some && string_views(r->0@) == a,
                None => r is None,
            },
    {
        flag_then(String::from_str("-S"), packages)
    }

    /// The arguments that remove `packages` with their unneeded dependencies
    /// and configuration (`-Rns` and the names), or `None` when there is
    /// nothing to remove.
    pub fn remove_args(&self, packages: &Vec<String>) -> (r: Option<Vec<String>>)
        ensures
            match mutation_args("-Rns"@, string_views(packages@)) {
                Some(a) => r is Some && string_views(r->0@) == a,
                None => r is None,
            },
    {
        flag_then(String::from_str("-Rns"), packages)
    }

    /// The arguments that show the details of `package`: `-Qi` for an
    /// installed one, `-Si` for one of the sync repositories.
    pub fn info_args(&self, package: &str, installed: bool) -> (r: Vec<String>)
        ensures
            string_views(r@) == seq![
                if installed {
                    "-Qi"@
                } else {
                    "-Si"@
                },
                package@,
            ],
    {
        let flag = if installed {
            String::from_str("-Qi")
        } else {
            String::from_str("-Si")
        };
        let r = vec![flag, String::from_str(package)];
        proof {
            assert(string_views(r@) =~= seq![r@[0]@, r@[1]@]);
        }
        r
    }

    /// The arguments that search the repositories for `query`.
    pub fn search_args(&self, query: &str) -> (r: Vec<String>)
        ensures
            string_views(r@) == seq!["-Ss"@, query@],
    {
        let r = vec![String::from_str("-Ss"), String::from_str(query)];
        proof {
            assert(string_views(r@) =~= seq![r@[0]@, r@[1]@]);
        }
        r
    }
}

fn flag_then(flag: String, packages: &Vec<String>) -> (r: Option<Vec<String>>)
    ensures
        match mutation_args(flag@, string_views(packages@)) {
            Some(a) => r is Some && string_views(r->0@) == a,
            None => r is None,
        },
{
    if packages.len() == 0 {
        return None;
    }
    let mut out: Vec<String> = vec![flag];
    let mut i: usize = 0;
    while i < packages.len()
        invariant
            i <= packages@.len(),
            string_views(out@) == seq![flag@] + string_views(packages@).subrange(0, i as int),
        decreases packages@.len() - i,
    {
        let p = packages[i].clone();
        proof {
            assert(string_views(out@.push(p)) =~= string_views(out@).push(p@));
            assert(string_views(packages@).subrange(0, i as int + 1) =~= string_views(
                packages@,
            ).subrange(0, i as int).push(p@));
            assert(string_views(out@.push(p)) =~= seq![flag@] + string_views(packages@).subrange(
                0,
                i as int + 1,
            ));
        }
        out.push(p);
        i += 1;
    }
    proof {
        assert(string_views(packages@).subrange(0, i as int) =~= string_views(packages@));
    }
    Some(out)
}

} // verus!
