//! Paths as the commander reads them: a spelling, a root flag and the names on the way down.
//!
//! A path is shown as it was spelled, and compared by its components: repeated and trailing
//! separators and every `.` but one that leads a relative path carry no meaning there, so two
//! spellings of one path are one key. Names are bytes, because a Linux file name is any bytes but
//! `/` and NUL.

use vstd::prelude::*;

use crate::text::decode_lossy;

verus! {

/// What a path is compared by: whether it is absolute, and its components in order.
#[verifier::ext_equal]
pub struct PathKey {
    pub absolute: bool,
    pub parts: Seq<Seq<u8>>,
}

impl PathKey {
    /// `base` is this path or one of its ancestors.
    pub open spec fn below(self, base: PathKey) -> bool {
        &&& self.absolute == base.absolute
        &&& base.parts.len() <= self.parts.len()
        &&& self.parts.take(base.parts.len() as int) == base.parts
    }
}

/// The mathematical content of a path: its spelling, and what it is compared by.
#[verifier::ext_equal]
pub struct PathView {
    pub text: Seq<u8>,
    pub absolute: bool,
    pub parts: Seq<Seq<u8>>,
}

/// A path: how it is spelled, absolute or relative, and its components in order.
#[derive(Debug, Clone)]
pub struct FilePath {
    pub text: Vec<u8>,
    pub absolute: bool,
    pub parts: Vec<Vec<u8>>,
}

impl View for FilePath {
    type V = PathView;

    open spec fn view(&self) -> PathView {
        PathView {
            text: self.text@,
            absolute: self.absolute,
            parts: self.parts@.map_values(|p: Vec<u8>| p@),
        }
    }
}

/// The bytes of `..`.
pub open spec fn dot_dot() -> Seq<u8> {
    seq![46u8, 46u8]
}

/// The byte of `.`.
pub open spec fn dot() -> Seq<u8> {
    seq![46u8]
}

impl PathView {
    /// What the path is compared by.
    pub open spec fn key(self) -> PathKey {
        PathKey { absolute: self.absolute, parts: self.parts }
    }

    /// The path is what its spelling says: reading it gives the root flag and the components.
    pub open spec fn spelled(self) -> bool {
        self == path_of(self.text)
    }

    /// The path without its last component, spelled as far as it goes; the root has no parent, and
    /// neither does the empty path.
    pub open spec fn parent(self) -> Option<PathView> {
        if self.parts.len() == 0 {
            None
        } else {
            Some(
                PathView {
                    text: parent_text(self.text),
                    absolute: self.absolute,
                    parts: self.parts.drop_last(),
                },
            )
        }
    }

    /// The last component, unless it is `.` or `..`.
    pub open spec fn file_name(self) -> Option<Seq<u8>> {
        if self.parts.len() == 0 || self.parts.last() == dot() || self.parts.last() == dot_dot() {
            None
        } else {
            Some(self.parts.last())
        }
    }

    /// The path with one more component, after a separator where the spelling does not end in one.
    pub open spec fn child(self, name: Seq<u8>) -> PathView {
        PathView {
            text: child_text(self.text, name),
            absolute: self.absolute,
            parts: self.parts.push(name),
        }
    }

    /// `base` is this path, one of its ancestors, or the empty path, which begins every other.
    pub open spec fn starts_with(self, base: PathView) -> bool {
        (!base.absolute && base.parts.len() == 0) || self.key().below(base.key())
    }

    /// What is printed for the path: its spelling, decoded.
    pub open spec fn shown(self) -> Seq<char> {
        crate::text::lossy_text(self.text)
    }

    /// What is printed for the path on a terminal: the same with control characters escaped.
    pub open spec fn shown_safely(self) -> Seq<char> {
        crate::text::escaped(self.shown())
    }
}

/// What several paths are compared by.
pub open spec fn keys_of(paths: Seq<PathView>) -> Seq<PathKey> {
    paths.map_values(|p: PathView| p.key())
}

/// The path that a byte string spells.
pub open spec fn path_of(text: Seq<u8>) -> PathView {
    PathView { text, absolute: text.len() > 0 && text[0] == 47u8, parts: components(text) }
}

/// The spelling of an entry of a directory.
pub open spec fn child_text(text: Seq<u8>, name: Seq<u8>) -> Seq<u8> {
    if text.len() > 0 && text.last() != 47u8 {
        text.push(47u8) + name
    } else {
        text + name
    }
}

/// A spelling without the separators and the `.` that trail it. The root keeps its own.
pub open spec fn trimmed(text: Seq<u8>) -> Seq<u8>
    decreases text.len(),
{
    if text.len() <= 1 {
        text
    } else if text.last() == 47u8 {
        trimmed(text.drop_last())
    } else if text.last() == 46u8 && text[text.len() - 2] == 47u8 {
        trimmed(text.drop_last())
    } else {
        text
    }
}

/// The spelling of a path without its last component.
pub open spec fn parent_text(text: Seq<u8>) -> Seq<u8> {
    let name_end = trimmed(text);
    trimmed(name_end.take(last_start(name_end)))
}

/// The components that a byte string spells: what lies between the separators, without empty
/// stretches and without `.`, unless it stands first.
pub open spec fn components(bytes: Seq<u8>) -> Seq<Seq<u8>>
    decreases bytes.len(),
{
    if bytes.len() == 0 {
        Seq::empty()
    } else if bytes.last() == 47u8 {
        components(bytes.drop_last())
    } else {
        proof {
            lemma_last_start(bytes);
        }
        let start = last_start(bytes);
        let name = bytes.skip(start);
        let before = components(bytes.take(start));
        if name == dot() && start > 0 {
            before
        } else {
            before.push(name)
        }
    }
}

/// Where the last stretch without separators begins.
pub open spec fn last_start(bytes: Seq<u8>) -> int
    decreases bytes.len(),
{
    if bytes.len() == 0 || bytes.last() == 47u8 {
        bytes.len() as int
    } else {
        last_start(bytes.drop_last())
    }
}

/// The last stretch without separators begins after a separator, or at the start.
pub proof fn lemma_last_start(bytes: Seq<u8>)
    ensures
        0 <= last_start(bytes) <= bytes.len(),
        bytes.len() > 0 && bytes.last() != 47u8 ==> last_start(bytes) < bytes.len(),
        forall|i: int| last_start(bytes) <= i < bytes.len() ==> bytes[i] != 47u8,
        last_start(bytes) > 0 ==> bytes[last_start(bytes) - 1] == 47u8,
    decreases bytes.len(),
{
    if bytes.len() > 0 && bytes.last() != 47u8 {
        let shorter = bytes.drop_last();
        lemma_last_start(shorter);
        assert forall|i: int| last_start(bytes) <= i < bytes.len() implies bytes[i] != 47u8 by {
            if i < shorter.len() {
                assert(shorter[i] == bytes[i]);
            }
        }
    }
}

/// Two byte strings are the same bytes.
pub fn same_bytes(a: &Vec<u8>, b: &Vec<u8>) -> (r: bool)
    ensures
        r == (a@ == b@),
{
    if a.len() != b.len() {
        return false;
    }
    let mut i: usize = 0;
    while i < a.len()
        invariant
            i <= a@.len(),
            a@.len() == b@.len(),
            forall|k: int| 0 <= k < i ==> a@[k] == b@[k],
        decreases a@.len() - i,
    {
        if a[i] != b[i] {
            assert(a@[i as int] != b@[i as int]);
            return false;
        }
        i = i + 1;
    }
    assert(a@ =~= b@);
    true
}

/// A copy of a byte string.
pub fn copy_bytes(a: &Vec<u8>) -> (r: Vec<u8>)
    ensures
        r@ == a@,
{
    let mut out: Vec<u8> = Vec::new();
    let mut i: usize = 0;
    while i < a.len()
        invariant
            i <= a@.len(),
            out@ == a@.take(i as int),
        decreases a@.len() - i,
    {
        out.push(a[i]);
        i = i + 1;
        assert(out@ =~= a@.take(i as int));
    }
    assert(out@ =~= a@);
    out
}

impl FilePath {
    /// The root directory.
    pub fn root() -> (r: FilePath)
        ensures
            r@ == path_of(seq![47u8]),
    {
        let r = FilePath { text: vec![47u8], absolute: true, parts: Vec::new() };
        proof {
            reveal_with_fuel(components, 2);
            assert(seq![47u8].drop_last() =~= Seq::empty());
            assert(r@.text =~= seq![47u8]);
            assert(r@.parts =~= Seq::empty());
        }
        r
    }

    /// Reads a path out of its bytes.
    pub fn from_bytes(bytes: &Vec<u8>) -> (r: FilePath)
        ensures
            r@ == path_of(bytes@),
    {
        let absolute = bytes.len() > 0 && bytes[0] == 47u8;
        let mut parts: Vec<Vec<u8>> = Vec::new();
        let mut name: Vec<u8> = Vec::new();
        let mut i: usize = 0;
        proof {
            lemma_last_start(bytes@.take(0));
            assert(name@ =~= bytes@.take(0).skip(last_start(bytes@.take(0))));
            assert(parts@.map_values(|p: Vec<u8>| p@) =~= components(
                bytes@.take(0).take(last_start(bytes@.take(0))),
            ));
        }
        while i < bytes.len()
            invariant
                i <= bytes@.len(),
                name@ == bytes@.take(i as int).skip(last_start(bytes@.take(i as int))),
                parts@.map_values(|p: Vec<u8>| p@) == components(
                    bytes@.take(i as int).take(last_start(bytes@.take(i as int))),
                ),
            decreases bytes@.len() - i,
        {
            let b = bytes[i];
            let ghost done = bytes@.take(i as int);
            let ghost next = bytes@.take(i as int + 1);
            let ghost old_parts = parts@.map_values(|p: Vec<u8>| p@);
            proof {
                lemma_last_start(done);
                lemma_last_start(next);
                assert(next.drop_last() =~= done);
                assert(next.last() == b);
            }
            if b == 47u8 {
                let is_dot = name.len() == 1 && name[0] == 46u8 && i > 1;
                proof {
                    assert(components(next) == components(done));
                    assert(next.take(last_start(next)) =~= next);
                    if name@.len() == 0 {
                        assert(last_start(done) == done.len());
                        assert(done.take(last_start(done)) =~= done);
                    } else {
                        assert(done.last() != 47u8);
                        if is_dot {
                            assert(name@ =~= dot());
                        } else {
                            assert(name@ != dot() || last_start(done) == 0) by {
                                if name@ == dot() {
                                    assert(name@[0] == 46u8);
                                }
                            }
                        }
                    }
                }
                if name.len() > 0 && !is_dot {
                    let ghost pushed = name@;
                    parts.push(name);
                    assert(parts@.map_values(|p: Vec<u8>| p@) =~= old_parts.push(pushed));
                }
                name = Vec::new();
                assert(name@ =~= next.skip(last_start(next)));
            } else {
                name.push(b);
                proof {
                    assert(last_start(next) == last_start(done));
                    assert(name@ =~= next.skip(last_start(next)));
                    assert(next.take(last_start(next)) =~= done.take(last_start(done)));
                }
            }
            i = i + 1;
        }
        let ghost whole = bytes@;
        let is_dot = name.len() == 1 && name[0] == 46u8 && i > 1;
        proof {
            assert(bytes@.take(i as int) =~= whole);
            lemma_last_start(whole);
            if name@.len() == 0 {
                assert(last_start(whole) == whole.len());
                assert(whole.take(last_start(whole)) =~= whole);
            } else if is_dot {
                assert(name@ =~= dot());
            } else {
                assert(name@ != dot() || last_start(whole) == 0) by {
                    if name@ == dot() {
                        assert(name@[0] == 46u8);
                    }
                }
            }
        }
        let ghost old_parts = parts@.map_values(|p: Vec<u8>| p@);
        if name.len() > 0 && !is_dot {
            let ghost pushed = name@;
            parts.push(name);
            assert(parts@.map_values(|p: Vec<u8>| p@) =~= old_parts.push(pushed));
        }
        FilePath { text: copy_bytes(bytes), absolute, parts }
    }

    /// Reads a path out of text.
    pub fn from_text(text: &str) -> (r: FilePath)
        ensures
            r@ == path_of(vstd::utf8::encode_utf8(text@)),
    {
        let bytes = text.as_bytes_vec();
        FilePath::from_bytes(&bytes)
    }

    /// The same path again.
    pub fn copy(&self) -> (r: FilePath)
        ensures
            r@ == self@,
    {
        let parts = copy_parts(&self.parts, self.parts.len());
        let r = FilePath { text: copy_bytes(&self.text), absolute: self.absolute, parts };
        assert(self.parts@.take(self.parts@.len() as int) =~= self.parts@);
        assert(r@ =~= self@);
        r
    }

    /// Two values are one path, however it is spelled.
    pub fn same(&self, other: &FilePath) -> (r: bool)
        ensures
            r == (self@.key() == other@.key()),
    {
        if self.absolute != other.absolute || self.parts.len() != other.parts.len() {
            assert(self@.parts.len() == self.parts@.len() && other@.parts.len()
                == other.parts@.len());
            return false;
        }
        let same = same_parts(&self.parts, &other.parts, self.parts.len());
        proof {
            assert(self@.parts.take(self.parts@.len() as int) =~= self@.parts);
            assert(other@.parts.take(self.parts@.len() as int) =~= other@.parts);
            if same {
                assert(self@.key() =~= other@.key());
            }
        }
        same
    }

    /// The path without its last component.
    pub fn parent(&self) -> (r: Option<FilePath>)
        ensures
            r is Some <==> self@.parent() is Some,
            r matches Some(p) ==> Some(p@) == self@.parent(),
            self@.spelled() ==> (r matches Some(p) ==> p@.spelled()),
    {
        proof {
            if self@.spelled() {
                law_a_parent_is_spelled(self@);
            }
        }
        let n: usize = self.parts.len();
        if n == 0 {
            return None;
        }
        let parts = copy_parts(&self.parts, n - 1);
        let end: usize = trimmed_end(&self.text, self.text.len());
        let start: usize = name_start(&self.text, end);
        let cut: usize = trimmed_end(&self.text, start);
        let text = copy_start(&self.text, cut);
        proof {
            assert(self.text@.take(self.text@.len() as int) =~= self.text@);
            assert(self.text@.take(end as int).take(start as int) =~= self.text@.take(start as int));
        }
        let r = FilePath { text, absolute: self.absolute, parts };
        assert(r@.parts =~= self@.parts.drop_last());
        Some(r)
    }

    /// The last component, unless it is `.` or `..`.
    pub fn file_name(&self) -> (r: Option<Vec<u8>>)
        ensures
            r is Some <==> self@.file_name() is Some,
            r matches Some(name) ==> Some(name@) == self@.file_name(),
    {
        let n: usize = self.parts.len();
        if n == 0 {
            return None;
        }
        let last = &self.parts[n - 1];
        assert(self@.parts.last() == last@);
        if last.len() == 2 && last[0] == 46u8 && last[1] == 46u8 {
            assert(last@ =~= dot_dot());
            return None;
        }
        assert(last@ != dot_dot()) by {
            if last@ == dot_dot() {
                assert(last@[0] == 46u8 && last@[1] == 46u8);
            }
        }
        if last.len() == 1 && last[0] == 46u8 {
            assert(last@ =~= dot());
            return None;
        }
        assert(last@ != dot()) by {
            if last@ == dot() {
                assert(last@[0] == 46u8);
            }
        }
        Some(copy_bytes(last))
    }

    /// The path with one more component.
    pub fn child(&self, name: &Vec<u8>) -> (r: FilePath)
        ensures
            r@ == self@.child(name@),
            self@.spelled() && ordinary(name@) ==> r@.spelled(),
    {
        proof {
            if self@.spelled() && ordinary(name@) {
                law_a_child_is_spelled(self@, name@);
            }
        }
        let mut parts = copy_parts(&self.parts, self.parts.len());
        parts.push(copy_bytes(name));
        let mut text = copy_bytes(&self.text);
        if text.len() > 0 && text[text.len() - 1] != 47u8 {
            text.push(47u8);
        }
        let ghost head = text@;
        let mut i: usize = 0;
        assert(head + name@.take(0) =~= head);
        while i < name.len()
            invariant
                i <= name@.len(),
                text@ == head + name@.take(i as int),
            decreases name@.len() - i,
        {
            text.push(name[i]);
            i = i + 1;
            assert(text@ =~= head + name@.take(i as int));
        }
        assert(name@.take(name@.len() as int) =~= name@);
        let r = FilePath { text, absolute: self.absolute, parts };
        assert(r@.parts =~= self@.parts.push(name@));
        r
    }

    /// Whether `base` is this path, one of its ancestors, or the empty path.
    pub fn starts_with(&self, base: &FilePath) -> (r: bool)
        ensures
            r == self@.starts_with(base@),
    {
        if !base.absolute && base.parts.len() == 0 {
            assert(base@.parts.len() == 0);
            return true;
        }
        if self.absolute != base.absolute || base.parts.len() > self.parts.len() {
            assert(self@.parts.len() == self.parts@.len() && base@.parts.len() == base.parts@.len());
            return false;
        }
        let same = same_parts(&self.parts, &base.parts, base.parts.len());
        assert(base@.parts.take(base.parts@.len() as int) =~= base@.parts);
        same
    }

    /// The path as it is printed, control characters and all.
    pub fn display(&self) -> (r: String)
        ensures
            r@ == self@.shown(),
    {
        decode_lossy(&self.text)
    }

    /// The path as it may be printed on a terminal: control characters in their escaped form.
    pub fn display_safely(&self) -> (r: String)
        ensures
            r@ == self@.shown_safely(),
            crate::text::inert(r@),
    {
        let shown = self.display();
        crate::text::terminal(shown.as_str())
    }
}

/// Where the first `n` bytes end once the separators and the `.` that trail them are left off.
fn trimmed_end(text: &Vec<u8>, n: usize) -> (r: usize)
    requires
        n <= text@.len(),
    ensures
        r <= n,
        text@.take(r as int) == trimmed(text@.take(n as int)),
{
    let mut end: usize = n;
    while end > 1 && (text[end - 1] == 47u8 || (text[end - 1] == 46u8 && text[end - 2] == 47u8))
        invariant
            end <= n <= text@.len(),
            trimmed(text@.take(end as int)) == trimmed(text@.take(n as int)),
        decreases end,
    {
        assert(text@.take(end as int).drop_last() =~= text@.take(end as int - 1));
        end = end - 1;
    }
    end
}

/// Where the last stretch without separators of the first `n` bytes begins.
fn name_start(text: &Vec<u8>, n: usize) -> (r: usize)
    requires
        n <= text@.len(),
    ensures
        r <= n,
        r == last_start(text@.take(n as int)),
{
    let mut start: usize = n;
    while start > 0 && text[start - 1] != 47u8
        invariant
            start <= n <= text@.len(),
            last_start(text@.take(start as int)) == last_start(text@.take(n as int)),
        decreases start,
    {
        assert(text@.take(start as int).drop_last() =~= text@.take(start as int - 1));
        start = start - 1;
    }
    start
}

fn copy_start(text: &Vec<u8>, n: usize) -> (r: Vec<u8>)
    requires
        n <= text@.len(),
    ensures
        r@ == text@.take(n as int),
{
    let mut out: Vec<u8> = Vec::new();
    let mut i: usize = 0;
    while i < n
        invariant
            i <= n <= text@.len(),
            out@ == text@.take(i as int),
        decreases n - i,
    {
        out.push(text[i]);
        i = i + 1;
        assert(out@ =~= text@.take(i as int));
    }
    out
}

fn copy_parts(parts: &Vec<Vec<u8>>, n: usize) -> (r: Vec<Vec<u8>>)
    requires
        n <= parts@.len(),
    ensures
        r@.len() == n,
        forall|k: int| 0 <= k < n ==> (#[trigger] r@[k])@ == parts@[k]@,
{
    let mut out: Vec<Vec<u8>> = Vec::new();
    let mut i: usize = 0;
    while i < n
        invariant
            i <= n <= parts@.len(),
            out@.len() == i,
            forall|k: int| 0 <= k < i ==> (#[trigger] out@[k])@ == parts@[k]@,
        decreases n - i,
    {
        out.push(copy_bytes(&parts[i]));
        i = i + 1;
    }
    out
}

fn same_parts(a: &Vec<Vec<u8>>, b: &Vec<Vec<u8>>, n: usize) -> (r: bool)
    requires
        n <= a@.len(),
        n <= b@.len(),
    ensures
        r == (a@.map_values(|p: Vec<u8>| p@).take(n as int) == b@.map_values(
            |p: Vec<u8>| p@,
        ).take(n as int)),
{
    let ghost x = a@.map_values(|p: Vec<u8>| p@).take(n as int);
    let ghost y = b@.map_values(|p: Vec<u8>| p@).take(n as int);
    let mut i: usize = 0;
    while i < n
        invariant
            i <= n,
            n <= a@.len(),
            n <= b@.len(),
            x == a@.map_values(|p: Vec<u8>| p@).take(n as int),
            y == b@.map_values(|p: Vec<u8>| p@).take(n as int),
            forall|k: int| 0 <= k < i ==> x[k] == y[k],
        decreases n - i,
    {
        if !same_bytes(&a[i], &b[i]) {
            assert(x[i as int] == a@[i as int]@ && y[i as int] == b@[i as int]@);
            return false;
        }
        assert(x[i as int] == a@[i as int]@ && y[i as int] == b@[i as int]@);
        i = i + 1;
    }
    assert(x =~= y);
    true
}

/// A name that one entry of a directory can have.
pub open spec fn ordinary(name: Seq<u8>) -> bool {
    name.len() > 0 && !name.contains(47u8) && name != dot()
}

proof fn lemma_name_start(head: Seq<u8>, name: Seq<u8>)
    requires
        !name.contains(47u8),
        head.len() == 0 || head.last() == 47u8,
    ensures
        last_start(head + name) == head.len(),
    decreases name.len(),
{
    let whole = head + name;
    if name.len() == 0 {
        assert(whole =~= head);
    } else {
        let shorter = name.drop_last();
        assert forall|i: int| 0 <= i < shorter.len() implies shorter[i] != 47u8 by {
            assert(name.contains(name[i]));
        }
        lemma_name_start(head, shorter);
        assert(whole.drop_last() =~= head + shorter);
        assert(name.contains(name.last()));
        assert(whole.last() == name.last());
    }
}

proof fn lemma_trimmed(text: Seq<u8>)
    ensures
        components(trimmed(text)) == components(text),
        path_of(trimmed(text)).absolute == path_of(text).absolute,
        trimmed(text).len() <= text.len(),
        text.len() > 0 ==> trimmed(text).len() > 0,
        trimmed(text).len() > 1 ==> trimmed(text).last() != 47u8,
    decreases text.len(),
{
    if text.len() > 1 {
        let shorter = text.drop_last();
        if text.last() == 47u8 {
            lemma_trimmed(shorter);
        } else if text.last() == 46u8 && text[text.len() - 2] == 47u8 {
            lemma_trimmed(shorter);
            reveal_with_fuel(last_start, 2);
            assert(shorter.last() == 47u8);
            assert(last_start(text) == text.len() - 1);
            assert(text.skip(text.len() - 1) =~= dot());
            assert(text.take(text.len() - 1) =~= shorter);
        }
    }
}

/// An entry of a spelled path is spelled too.
pub proof fn law_a_child_is_spelled(p: PathView, name: Seq<u8>)
    requires
        p.spelled(),
        ordinary(name),
    ensures
        p.child(name).spelled(),
{
    let text = child_text(p.text, name);
    let head = if p.text.len() > 0 && p.text.last() != 47u8 {
        p.text.push(47u8)
    } else {
        p.text
    };
    assert(text == head + name);
    lemma_name_start(head, name);
    assert(name.contains(name.last()));
    assert(name.contains(name[0]));
    assert(text.last() == name.last());
    assert(text.skip(head.len() as int) =~= name);
    assert(text.take(head.len() as int) =~= head);
    assert(components(head) == components(p.text)) by {
        if p.text.len() > 0 && p.text.last() != 47u8 {
            assert(head.drop_last() =~= p.text);
        }
    }
    assert(p.child(name) =~= path_of(text));
}

/// The parent of a spelled path is spelled too.
pub proof fn law_a_parent_is_spelled(p: PathView)
    requires
        p.spelled(),
    ensures
        p.parent() matches Some(up) ==> up.spelled(),
{
    if p.parts.len() > 0 {
        let text = trimmed(p.text);
        lemma_trimmed(p.text);
        lemma_last_start(text);
        let start = last_start(text);
        let head = text.take(start);
        lemma_trimmed(head);
        if text.len() == 1 && text.last() == 47u8 {
            reveal_with_fuel(components, 2);
            assert(false);
        }
        let name = text.skip(start);
        if name == dot() && start > 0 {
            assert(name.len() == 1 && name[0] == 46u8);
            assert(text.last() == 46u8 && text[text.len() - 2] == 47u8);
            lemma_trimmed_ends(p.text);
            assert(false);
        }
        assert(components(text) == components(head).push(name));
        assert(components(head).push(name).drop_last() =~= components(head));
        if start > 0 {
            assert(head[0] == text[0]);
        } else {
            assert(text[0] != 47u8);
        }
        assert(p.parent()->Some_0 =~= path_of(parent_text(p.text)));
    }
}

proof fn lemma_trimmed_ends(text: Seq<u8>)
    ensures
        trimmed(trimmed(text)) == trimmed(text),
        ({
            let t = trimmed(text);
            !(t.len() > 1 && t.last() == 46u8 && t[t.len() - 2] == 47u8)
        }),
    decreases text.len(),
{
    if text.len() > 1 && (text.last() == 47u8 || (text.last() == 46u8 && text[text.len() - 2]
        == 47u8)) {
        lemma_trimmed_ends(text.drop_last());
    }
}

/// Going down into a directory and back up again ends where it began, spelled as before where
/// nothing trailed the spelling.
pub proof fn law_parent_undoes_child(p: PathView, name: Seq<u8>)
    ensures
        p.child(name).parent() matches Some(up) && up.key() == p.key() && (ordinary(name)
            && trimmed(p.text) == p.text ==> up == p),
        p.child(name).starts_with(p),
        name != dot() && name != dot_dot() ==> p.child(name).file_name() == Some(name),
{
    assert(p.child(name).parts.drop_last() =~= p.parts);
    assert(p.child(name).parts.take(p.parts.len() as int) =~= p.parts);
    if ordinary(name) && trimmed(p.text) == p.text {
        let text = child_text(p.text, name);
        let head = if p.text.len() > 0 && p.text.last() != 47u8 {
            p.text.push(47u8)
        } else {
            p.text
        };
        lemma_name_start(head, name);
        assert(name.contains(name.last()));
        assert(text.last() == name.last());
        assert(trimmed(text) == text) by {
            if text.len() > 1 && text.last() == 46u8 && text[text.len() - 2] == 47u8 {
                if name.len() == 1 {
                    assert(name =~= dot());
                } else {
                    assert(name.contains(name[name.len() - 2]));
                }
            }
        }
        assert(text.take(head.len() as int) =~= head);
        assert(trimmed(head) == p.text) by {
            if p.text.len() > 0 && p.text.last() != 47u8 {
                assert(head.drop_last() =~= p.text);
            }
        }
    }
}

} // verus!
