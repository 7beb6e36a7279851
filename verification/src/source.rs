//! Source composition tree: a virtual file hierarchy of device source files.
//! Resolution expands `#import <path>` directives recursively into one
//! translation unit; each file is emitted at most once per unit (first
//! occurrence wins, keyed by path), and an unresolved path is reported
//! together with the importing file.

use vstd::prelude::*;
use crate::Error;
use vstd::string::{StrSliceExecFns, StringSliceAdditionalSpecFns};

verus! {

/// One registered virtual file: a path and its content.
#[derive(Clone, Debug)]
pub struct SourceFile {
    /// Canonical path key of the file.
    pub path: Vec<u8>,
    /// Raw content of the file.
    pub content: Vec<u8>,
}

/// Byte value of the newline that ends a line.
pub const NEWLINE: u8 = 10;

/// Byte value of `>`, which closes an import directive.
pub const CLOSE_ANGLE: u8 = 62;

/// The directive prefix `#import <`, as bytes.
pub open spec fn import_prefix() -> Seq<u8> {
    seq![35u8, 105u8, 109u8, 112u8, 111u8, 114u8, 116u8, 32u8, 60u8]
}

/// Position just past the current line's last byte (exclusive, without the
/// newline): the first newline at or after `pos`, or the end of the content.
pub open spec fn line_end(content: Seq<u8>, pos: int) -> int
    decreases content.len() - pos,
{
    if pos < 0 || pos >= content.len() {
        content.len() as int
    } else if content[pos] == NEWLINE {
        pos
    } else {
        line_end(content, pos + 1)
    }
}

/// Position where the next line starts: past the terminating newline.
pub open spec fn line_next(content: Seq<u8>, pos: int) -> int {
    if line_end(content, pos) < content.len() {
        line_end(content, pos) + 1
    } else {
        line_end(content, pos)
    }
}

/// The line end lies between `pos` and the end of the content.
pub proof fn lemma_line_end(content: Seq<u8>, pos: int)
    requires
        0 <= pos <= content.len(),
    ensures
        pos <= line_end(content, pos) <= content.len(),
    decreases content.len() - pos,
{
    if pos < content.len() && content[pos] != NEWLINE {
        lemma_line_end(content, pos + 1);
    }
}

/// Whether one line (without its newline) is an import directive.
pub open spec fn is_import_line(line: Seq<u8>) -> bool {
    &&& line.len() >= 11
    &&& line.subrange(0, 9) == import_prefix()
    &&& line[line.len() - 1] == CLOSE_ANGLE
}

/// The path an import directive names.
pub open spec fn import_path(line: Seq<u8>) -> Seq<u8> {
    line.subrange(9, line.len() - 1)
}

/// First-match lookup of a path among registered files.
pub open spec fn lookup_spec(files: Seq<(Seq<u8>, Seq<u8>)>, path: Seq<u8>) -> Option<Seq<u8>>
    decreases files.len(),
{
    if files.len() == 0 {
        None
    } else if files[0].0 == path {
        Some(files[0].1)
    } else {
        lookup_spec(files.drop_first(), path)
    }
}

/// Outcome of resolving one translation unit: either the fully expanded text
/// together with the set of paths already emitted, or the first unresolved
/// import with the file that named it.
pub enum Resolution {
    /// Fully expanded text and the paths emitted so far.
    Done { text: Seq<u8>, imported: Set<Seq<u8>> },
    /// An import directive named `path`, which no registered file matches.
    Missing { path: Seq<u8>, importer: Seq<u8> },
}

/// Expands `content` (the body of file `importer`) from byte `pos` on.
///
/// A literal line is copied through; an import directive is replaced by the
/// expansion of the named file, unless that file's path is already in `done`,
/// in which case the directive is dropped. `fuel` bounds the import depth;
/// the public entry point supplies one unit per registered file, which the
/// first-occurrence rule makes sufficient.
pub open spec fn resolve_rec(
    files: Seq<(Seq<u8>, Seq<u8>)>,
    importer: Seq<u8>,
    content: Seq<u8>,
    pos: int,
    done: Set<Seq<u8>>,
    fuel: nat,
) -> Resolution
    decreases fuel, content.len() - pos,
    when 0 <= pos
    via resolve_rec_dec
{
    if pos >= content.len() {
        Resolution::Done { text: Seq::empty(), imported: done }
    } else {
        let e = line_end(content, pos);
        let next = line_next(content, pos);
        let line = content.subrange(pos, e);
        if is_import_line(line) {
            let p = import_path(line);
            if done.contains(p) {
                resolve_rec(files, importer, content, next, done, fuel)
            } else {
                match lookup_spec(files, p) {
                    None => Resolution::Missing { path: p, importer: importer },
                    Some(sub) => {
                        if fuel == 0 {
                            Resolution::Missing { path: p, importer: importer }
                        } else {
                            match resolve_rec(files, p, sub, 0, done.insert(p), (fuel - 1) as nat) {
                                Resolution::Missing { path: mp, importer: mi } => {
                                    Resolution::Missing { path: mp, importer: mi }
                                },
                                Resolution::Done { text: sub_text, imported: sub_done } => {
                                    match resolve_rec(files, importer, content, next, sub_done, fuel) {
                                        Resolution::Missing { path: mp, importer: mi } => {
                                            Resolution::Missing { path: mp, importer: mi }
                                        },
                                        Resolution::Done { text: rest, imported: fin } => {
                                            Resolution::Done { text: sub_text + rest, imported: fin }
                                        },
                                    }
                                },
                            }
                        }
                    },
                }
            }
        } else {
            match resolve_rec(files, importer, content, next, done, fuel) {
                Resolution::Missing { path: mp, importer: mi } => {
                    Resolution::Missing { path: mp, importer: mi }
                },
                Resolution::Done { text: rest, imported: fin } => {
                    Resolution::Done { text: content.subrange(pos, next) + rest, imported: fin }
                },
            }
        }
    }
}

#[via_fn]
proof fn resolve_rec_dec(
    files: Seq<(Seq<u8>, Seq<u8>)>,
    importer: Seq<u8>,
    content: Seq<u8>,
    pos: int,
    done: Set<Seq<u8>>,
    fuel: nat,
) {
    if 0 <= pos <= content.len() {
        lemma_line_end(content, pos);
    }
}

/// A directive that names an already-emitted path contributes nothing: the
/// line is consumed and resolution continues as if it were not there. This is
/// the first-occurrence rule seen locally at any second occurrence.
pub proof fn lemma_reimport_emits_nothing(
    files: Seq<(Seq<u8>, Seq<u8>)>,
    importer: Seq<u8>,
    content: Seq<u8>,
    pos: int,
    done: Set<Seq<u8>>,
    fuel: nat,
)
    requires
        0 <= pos < content.len(),
        is_import_line(content.subrange(pos, line_end(content, pos))),
        done.contains(import_path(content.subrange(pos, line_end(content, pos)))),
    ensures
        resolve_rec(files, importer, content, pos, done, fuel) == resolve_rec(
            files,
            importer,
            content,
            line_next(content, pos),
            done,
            fuel,
        ),
{
    lemma_line_end(content, pos);
}

/// Resolution never forgets an emitted path: the set of emitted paths only
/// grows, so a path emitted anywhere earlier in the unit stays suppressed
/// everywhere later, whichever parent imports it.
pub proof fn lemma_resolution_monotone(
    files: Seq<(Seq<u8>, Seq<u8>)>,
    importer: Seq<u8>,
    content: Seq<u8>,
    pos: int,
    done: Set<Seq<u8>>,
    fuel: nat,
)
    requires
        0 <= pos,
    ensures
        resolve_rec(files, importer, content, pos, done, fuel) matches Resolution::Done {
            text,
            imported,
        } ==> done.subset_of(imported),
    decreases fuel, content.len() - pos,
{
    if pos < content.len() {
        lemma_line_end(content, pos);
        let e = line_end(content, pos);
        let next = line_next(content, pos);
        let line = content.subrange(pos, e);
        if is_import_line(line) {
            let p = import_path(line);
            if done.contains(p) {
                lemma_resolution_monotone(files, importer, content, next, done, fuel);
            } else {
                match lookup_spec(files, p) {
                    None => {},
                    Some(sub) => {
                        if fuel > 0 {
                            lemma_resolution_monotone(
                                files,
                                p,
                                sub,
                                0,
                                done.insert(p),
                                (fuel - 1) as nat,
                            );
                            match resolve_rec(files, p, sub, 0, done.insert(p), (fuel - 1) as nat) {
                                Resolution::Missing { path: mp, importer: mi } => {},
                                Resolution::Done { text: t1, imported: d1 } => {
                                    lemma_resolution_monotone(
                                        files,
                                        importer,
                                        content,
                                        next,
                                        d1,
                                        fuel,
                                    );
                                },
                            }
                        }
                    },
                }
            }
        } else {
            lemma_resolution_monotone(files, importer, content, next, done, fuel);
        }
    }
}

/// Resolution is a pure function of the tree and the entry path: two
/// resolutions of the same entry over the same tree are byte-identical.
pub proof fn lemma_resolution_deterministic(
    files: Seq<(Seq<u8>, Seq<u8>)>,
    entry: Seq<u8>,
    a: Resolution,
    b: Resolution,
)
    requires
        a == resolve_spec(files, entry),
        b == resolve_spec(files, entry),
    ensures
        a == b,
{
}

/// The outcome of resolving `entry` over the registered files: the entry file
/// itself is marked emitted before its body is expanded.
pub open spec fn resolve_spec(files: Seq<(Seq<u8>, Seq<u8>)>, entry: Seq<u8>) -> Resolution {
    match lookup_spec(files, entry) {
        None => Resolution::Missing { path: entry, importer: entry },
        Some(c) => resolve_rec(
            files,
            entry,
            c,
            0,
            Set::empty().insert(entry),
            files.len() as nat,
        ),
    }
}

/// Byte-wise equality of two buffers.
fn bytes_eq(a: &Vec<u8>, b: &Vec<u8>) -> (r: bool)
    ensures
        r == (a@ == b@),
{
    if a.len() != b.len() {
        return false;
    }
    let n = a.len();
    let mut i: usize = 0;
    while i < n
        invariant
            n == a.len() == b.len(),
            i <= n,
            forall|j: int| 0 <= j < i ==> a@[j] == b@[j],
        decreases n - i,
    {
        if a[i] != b[i] {
            return false;
        }
        i = i + 1;
    }
    proof {
        assert(a@ =~= b@);
    }
    true
}

/// Set of paths already emitted into the unit being resolved.
struct PathList {
    paths: Vec<Vec<u8>>,
}

impl View for PathList {
    type V = Set<Seq<u8>>;

    closed spec fn view(&self) -> Set<Seq<u8>> {
        self.paths@.map_values(|p: Vec<u8>| p@).to_set()
    }
}

impl PathList {
    fn new() -> (r: PathList)
        ensures
            r@ == Set::<Seq<u8>>::empty(),
    {
        let r = PathList { paths: Vec::new() };
        proof {
            assert(r@ =~= Set::<Seq<u8>>::empty());
        }
        r
    }

    fn contains(&self, path: &Vec<u8>) -> (r: bool)
        ensures
            r == self@.contains(path@),
    {
        let ghost views = self.paths@.map_values(|p: Vec<u8>| p@);
        let n = self.paths.len();
        let mut i: usize = 0;
        while i < n
            invariant
                n == self.paths.len(),
                i <= n,
                views == self.paths@.map_values(|p: Vec<u8>| p@),
                forall|j: int| 0 <= j < i ==> views[j] != path@,
            decreases n - i,
        {
            if bytes_eq(&self.paths[i], path) {
                proof {
                    assert(views[i as int] == path@);
                    assert(views.contains(path@));
                }
                return true;
            }
            i = i + 1;
        }
        proof {
            assert(!views.contains(path@));
        }
        false
    }

    fn insert(&mut self, path: Vec<u8>)
        ensures
            final(self)@ == old(self)@.insert(path@),
    {
        let present = self.contains(&path);
        if !present {
            self.paths.push(path);
            proof {
                let views = self.paths@.map_values(|p: Vec<u8>| p@);
                let olds = old(self).paths@.map_values(|p: Vec<u8>| p@);
                assert(self@ =~= old(self)@.insert(path@)) by {
                    assert forall|x: Seq<u8>| self@.contains(x) <==> old(self)@.insert(
                        path@,
                    ).contains(x) by {
                        if views.contains(x) {
                            let j = choose|j: int| 0 <= j < views.len() && views[j] == x;
                            if j < olds.len() {
                                assert(olds[j] == x);
                                assert(olds.contains(x));
                            } else {
                                assert(x == path@);
                            }
                        }
                        if olds.contains(x) {
                            let j = choose|j: int| 0 <= j < olds.len() && olds[j] == x;
                            assert(views[j] == x);
                        }
                        if x == path@ {
                            assert(views[views.len() - 1] == path@);
                        }
                    }
                }
            }
        } else {
            proof {
                assert(self@ =~= old(self)@.insert(path@));
            }
        }
    }
}

/// End of the line starting at `pos`: index of its newline, or of the end of
/// the content.
fn find_line_end(content: &Vec<u8>, pos: usize) -> (e: usize)
    requires
        pos <= content.len(),
    ensures
        e == line_end(content@, pos as int),
        pos <= e <= content.len(),
{
    let n = content.len();
    let mut i: usize = pos;
    while i < n
        invariant
            n == content.len(),
            pos <= i <= n,
            line_end(content@, pos as int) == line_end(content@, i as int),
        decreases n - i,
    {
        if content[i] == NEWLINE {
            return i;
        }
        i = i + 1;
    }
    n
}

/// Recognizes an import directive in `content[pos..e]` and extracts its path.
fn parse_import(content: &Vec<u8>, pos: usize, e: usize) -> (r: Option<Vec<u8>>)
    requires
        pos <= e <= content.len(),
    ensures
        r is Some <==> is_import_line(content@.subrange(pos as int, e as int)),
        r matches Some(p) ==> p@ == import_path(content@.subrange(pos as int, e as int)),
{
    let ghost line = content@.subrange(pos as int, e as int);
    if e - pos < 11 {
        return None;
    }
    if content[e - 1] != CLOSE_ANGLE {
        proof {
            assert(line[line.len() - 1] != CLOSE_ANGLE);
        }
        return None;
    }
    let prefix: Vec<u8> = vec![35u8, 105u8, 109u8, 112u8, 111u8, 114u8, 116u8, 32u8, 60u8];
    proof {
        assert(prefix@ =~= import_prefix());
    }
    let mut k: usize = 0;
    while k < 9
        invariant
            pos + 11 <= e <= content.len(),
            k <= 9,
            line == content@.subrange(pos as int, e as int),
            prefix@ == import_prefix(),
            prefix.len() == 9,
            forall|j: int| 0 <= j < k ==> content@[pos + j] == import_prefix()[j],
        decreases 9 - k,
    {
        let pk: usize = pos + k;
        if content[pk] != prefix[k] {
            proof {
                assert(line.len() == e - pos);
                assert(line[k as int] == content@[pos + k]);
                assert(content@[pos + k] != import_prefix()[k as int]);
                assert(line.subrange(0, 9)[k as int] == line[k as int]);
                assert(line.subrange(0, 9) != import_prefix());
            }
            return None;
        }
        k = k + 1;
    }
    let mut p: Vec<u8> = Vec::new();
    let mut i: usize = pos + 9;
    while i < e - 1
        invariant
            pos + 11 <= e <= content.len(),
            pos + 9 <= i <= e - 1,
            p@ == content@.subrange(pos + 9, i as int),
        decreases e - i,
    {
        p.push(content[i]);
        proof {
            assert(p@ =~= content@.subrange(pos + 9, i + 1));
        }
        i = i + 1;
    }
    proof {
        assert(line.subrange(0, 9) =~= import_prefix()) by {
            assert forall|j: int| 0 <= j < 9 implies line.subrange(0, 9)[j] == import_prefix()[j] by {
                assert(content@[pos + j] == import_prefix()[j]);
            }
        }
        assert(line[line.len() - 1] == CLOSE_ANGLE);
        assert(is_import_line(line));
        assert(p@ =~= import_path(line));
    }
    Some(p)
}

/// The virtual file hierarchy device source is composed from.
pub struct SourceTree {
    files: Vec<SourceFile>,
}

impl View for SourceTree {
    type V = Seq<(Seq<u8>, Seq<u8>)>;

    closed spec fn view(&self) -> Seq<(Seq<u8>, Seq<u8>)> {
        Seq::new(self.files@.len(), |i: int| (self.files@[i].path@, self.files@[i].content@))
    }
}

impl SourceTree {
    /// An empty tree.
    pub fn new() -> (r: SourceTree)
        ensures
            r@ == Seq::<(Seq<u8>, Seq<u8>)>::empty(),
    {
        let r = SourceTree { files: Vec::new() };
        proof {
            assert(r@ =~= Seq::<(Seq<u8>, Seq<u8>)>::empty());
        }
        r
    }

    /// Registers an in-memory file; a path may be registered only once.
    pub fn register(&mut self, path: Vec<u8>, content: Vec<u8>) -> (r: Result<(), Error>)
        ensures
            lookup_spec(old(self)@, path@) is Some ==> final(self)@ == old(self)@ && (
            r matches Err(Error::DuplicatePath { path: p }) && p@ == path@),
            lookup_spec(old(self)@, path@) is None ==> r is Ok && final(self)@ == old(self)@.push(
                (path@, content@),
            ),
    {
        if self.find(&path).is_some() {
            return Err(Error::DuplicatePath { path });
        }
        let ghost before = self@;
        self.files.push(SourceFile { path, content });
        proof {
            assert(self@ =~= before.push((self.files@.last().path@, self.files@.last().content@)));
        }
        Ok(())
    }

    /// First-match lookup of a registered file's content.
    fn find(&self, path: &Vec<u8>) -> (r: Option<&Vec<u8>>)
        ensures
            r is Some <==> lookup_spec(self@, path@) is Some,
            r matches Some(c) ==> lookup_spec(self@, path@) == Some(c@),
    {
        let n = self.files.len();
        let mut i: usize = 0;
        proof {
            assert(self@.skip(0) =~= self@);
        }
        while i < n
            invariant
                n == self.files.len(),
                i <= n,
                lookup_spec(self@, path@) == lookup_spec(self@.skip(i as int), path@),
            decreases n - i,
        {
            proof {
                assert(self@.skip(i as int)[0] == (self.files@[i as int].path@,
                self.files@[i as int].content@));
                assert(self@.skip(i as int).drop_first() =~= self@.skip(i + 1));
            }
            if bytes_eq(&self.files[i].path, path) {
                return Some(&self.files[i].content);
            }
            i = i + 1;
        }
        proof {
            assert(self@.skip(n as int) =~= Seq::<(Seq<u8>, Seq<u8>)>::empty());
        }
        None
    }

    /// Expands `content` from `pos` on, appending emitted text to `out` and
    /// recording emitted paths in `done`; mirrors `resolve_rec` exactly.
    fn resolve_inner(
        &self,
        importer: &Vec<u8>,
        content: &Vec<u8>,
        pos: usize,
        done: &mut PathList,
        out: &mut Vec<u8>,
        fuel: usize,
    ) -> (r: Result<(), Error>)
        requires
            pos <= content.len(),
        ensures
            resolve_rec(self@, importer@, content@, pos as int, old(done)@, fuel as nat) matches
                Resolution::Done { text, imported } ==> r is Ok && final(out)@ == old(out)@ + text
                && final(done)@ == imported,
            resolve_rec(self@, importer@, content@, pos as int, old(done)@, fuel as nat) matches
                Resolution::Missing { path, importer: imp } ==> (r matches Err(
                Error::UnresolvedImport { path: ep, importer: ei },
            ) && ep@ == path && ei@ == imp),
        decreases fuel, content.len() - pos,
    {
        let ghost res = resolve_rec(self@, importer@, content@, pos as int, old(done)@,
        fuel as nat);
        if pos >= content.len() {
            proof {
                assert(out@ =~= old(out)@ + Seq::<u8>::empty());
            }
            return Ok(());
        }
        let e = find_line_end(content, pos);
        let next = if e < content.len() {
            e + 1
        } else {
            e
        };
        match parse_import(content, pos, e) {
            None => {
                let mut i: usize = pos;
                while i < next
                    invariant
                        pos <= i <= next <= content.len(),
                        out@ == old(out)@ + content@.subrange(pos as int, i as int),
                    decreases next - i,
                {
                    out.push(content[i]);
                    proof {
                        assert(out@ =~= old(out)@ + content@.subrange(pos as int, i + 1));
                    }
                    i = i + 1;
                }
                let rr = self.resolve_inner(importer, content, next, done, out, fuel);
                proof {
                    let chunk = content@.subrange(pos as int, next as int);
                    if let Resolution::Done { text, imported } = resolve_rec(
                        self@,
                        importer@,
                        content@,
                        next as int,
                        old(done)@,
                        fuel as nat,
                    ) {
                        assert((old(out)@ + chunk) + text =~= old(out)@ + (chunk + text));
                    }
                }
                rr
            },
            Some(p) => {
                let already = done.contains(&p);
                if already {
                    self.resolve_inner(importer, content, next, done, out, fuel)
                } else {
                    match self.find(&p) {
                        None => Err(
                            Error::UnresolvedImport { path: p, importer: importer.clone() },
                        ),
                        Some(sub) => {
                            if fuel == 0 {
                                Err(Error::UnresolvedImport { path: p, importer: importer.clone() })
                            } else {
                                let ghost done_p = old(done)@.insert(p@);
                                done.insert(p.clone());
                                let rr = self.resolve_inner(&p, sub, 0, done, out, fuel - 1);
                                match rr {
                                    Err(err) => Err(err),
                                    Ok(()) => {
                                        let ghost mid_out = out@;
                                        let ghost mid_done = done@;
                                        let r2 = self.resolve_inner(
                                            importer,
                                            content,
                                            next,
                                            done,
                                            out,
                                            fuel,
                                        );
                                        proof {
                                            if let Resolution::Done { text: t1, imported: d1 } =
                                                resolve_rec(
                                                self@,
                                                p@,
                                                sub@,
                                                0,
                                                done_p,
                                                (fuel - 1) as nat,
                                            ) {
                                                if let Resolution::Done { text: t2, imported: d2 }
                                                    = resolve_rec(
                                                    self@,
                                                    importer@,
                                                    content@,
                                                    next as int,
                                                    d1,
                                                    fuel as nat,
                                                ) {
                                                    assert((old(out)@ + t1) + t2 =~= old(out)@ + (
                                                    t1 + t2));
                                                }
                                            }
                                        }
                                        r2
                                    },
                                }
                            }
                        },
                    }
                }
            },
        }
    }

    /// Resolves the unit rooted at `entry` into one deduplicated text.
    pub fn resolve(&self, entry: &Vec<u8>) -> (r: Result<Vec<u8>, Error>)
        ensures
            resolve_spec(self@, entry@) matches Resolution::Done { text, imported } ==> (
            r matches Ok(t) && t@ == text),
            resolve_spec(self@, entry@) matches Resolution::Missing { path, importer } ==> (
            r matches Err(Error::UnresolvedImport { path: ep, importer: ei }) && ep@ == path
                && ei@ == importer),
    {
        match self.find(entry) {
            None => Err(
                Error::UnresolvedImport { path: entry.clone(), importer: entry.clone() },
            ),
            Some(content) => {
                let mut done = PathList::new();
                done.insert(entry.clone());
                proof {
                    assert(done@ =~= Set::<Seq<u8>>::empty().insert(entry@));
                }
                let mut out: Vec<u8> = Vec::new();
                let fuel = self.files.len();
                proof {
                    assert(self@.len() == self.files@.len());
                }
                let rr = self.resolve_inner(entry, content, 0, &mut done, &mut out, fuel);
                match rr {
                    Ok(()) => {
                        proof {
                            if let Resolution::Done { text, imported } = resolve_spec(
                                self@,
                                entry@,
                            ) {
                                assert(out@ =~= Seq::<u8>::empty() + text);
                                assert(Seq::<u8>::empty() + text =~= text);
                            }
                        }
                        Ok(out)
                    },
                    Err(err) => Err(err),
                }
            },
        }
    }
}

/// Paths and contents of the built-in device source files, under `clay/`.
pub open spec fn clay_source_list() -> Seq<(Seq<u8>, Seq<u8>)> {
    seq![
        ("clay/core.h".spec_bytes(), "typedef float3 color3;\n".spec_bytes()),
        (
            "clay/material/luminous.h".spec_bytes(),
            "#import <clay/core.h>\ncolor3 luminous_emit(void);\n".spec_bytes(),
        ),
        (
            "clay/material/diffuse.h".spec_bytes(),
            "#import <clay/core.h>\ncolor3 diffuse_scatter(__global const float *fdata);\n".spec_bytes(),
        ),
        (
            "clay/shape/sphere.h".spec_bytes(),
            "#import <clay/core.h>\nfloat sphere_hit(__global const float *fdata, float3 o, float3 d);\n".spec_bytes(),
        ),
        (
            "clay/shape/half_space.h".spec_bytes(),
            "#import <clay/core.h>\nfloat half_space_hit(__global const float *fdata, float3 o, float3 d);\n".spec_bytes(),
        ),
        (
            "clay/background/gradient.h".spec_bytes(),
            "#import <clay/core.h>\ncolor3 gradient_shade(__global const float *fdata, float3 d);\n".spec_bytes(),
        ),
        (
            "clay/view/proj_view.h".spec_bytes(),
            "#import <clay/core.h>\nfloat3 proj_view_dir(float3 pos, float16 ori, float fov, float2 uv);\n".spec_bytes(),
        ),
        (
            "clay/filter/identity.h".spec_bytes(),
            "#import <clay/core.h>\ncolor3 filter_identity(color3 c);\n".spec_bytes(),
        ),
        (
            "clay/filter/log.h".spec_bytes(),
            "#import <clay/core.h>\ncolor3 filter_log(color3 c, __global const float *fdata);\n".spec_bytes(),
        ),
    ]
}

/// The built-in device source tree: every `clay/` file that the engine's own
/// capability implementations import.
pub fn source() -> (r: SourceTree)
    ensures
        r@ == clay_source_list(),
{
    let mut files: Vec<SourceFile> = Vec::new();
    files.push(SourceFile {
        path: "clay/core.h".as_bytes_vec(),
        content: "typedef float3 color3;\n".as_bytes_vec(),
    });
    files.push(SourceFile {
        path: "clay/material/luminous.h".as_bytes_vec(),
        content: "#import <clay/core.h>\ncolor3 luminous_emit(void);\n".as_bytes_vec(),
    });
    files.push(SourceFile {
        path: "clay/material/diffuse.h".as_bytes_vec(),
        content: "#import <clay/core.h>\ncolor3 diffuse_scatter(__global const float *fdata);\n".as_bytes_vec(),
    });
    files.push(SourceFile {
        path: "clay/shape/sphere.h".as_bytes_vec(),
        content: "#import <clay/core.h>\nfloat sphere_hit(__global const float *fdata, float3 o, float3 d);\n".as_bytes_vec(),
    });
    files.push(SourceFile {
        path: "clay/shape/half_space.h".as_bytes_vec(),
        content: "#import <clay/core.h>\nfloat half_space_hit(__global const float *fdata, float3 o, float3 d);\n".as_bytes_vec(),
    });
    files.push(SourceFile {
        path: "clay/background/gradient.h".as_bytes_vec(),
        content: "#import <clay/core.h>\ncolor3 gradient_shade(__global const float *fdata, float3 d);\n".as_bytes_vec(),
    });
    files.push(SourceFile {
        path: "clay/view/proj_view.h".as_bytes_vec(),
        content: "#import <clay/core.h>\nfloat3 proj_view_dir(float3 pos, float16 ori, float fov, float2 uv);\n".as_bytes_vec(),
    });
    files.push(SourceFile {
        path: "clay/filter/identity.h".as_bytes_vec(),
        content: "#import <clay/core.h>\ncolor3 filter_identity(color3 c);\n".as_bytes_vec(),
    });
    files.push(SourceFile {
        path: "clay/filter/log.h".as_bytes_vec(),
        content: "#import <clay/core.h>\ncolor3 filter_log(color3 c, __global const float *fdata);\n".as_bytes_vec(),
    });
    let r = SourceTree { files };
    proof {
        assert(r@ =~= clay_source_list());
    }
    r
}

} // verus!
