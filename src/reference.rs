//! Parsing and formatting of container image references.
use vstd::prelude::*;

verus! {

/// The version of an [`ImageRef`]: a named tag or a content digest.
#[derive(Clone, Debug, PartialEq, Eq, Hash)]
pub enum ImageRefVersion {
    /// The named tag, such as `latest`, `v1.0` or `buster-slim`.
    Tag(String),
    /// The indicated digest, such as `sha256:abcd1234`.
    Digest(String),
}

/// A parsed container image reference.
#[derive(Clone, Debug, PartialEq, Eq, Hash)]
pub struct ImageRef {
    /// The registry in which the image can be found.
    pub registry: String,
    /// The repository of the image.
    pub repository: String,
    /// The version of the image.
    pub version: ImageRefVersion,
}

/// Why a string is not a valid image reference.
#[derive(Clone, Copy, Debug, PartialEq, Eq, Hash)]
pub enum ImageRefError {
    /// The registry part before the first `/` is empty.
    EmptyRegistry,
    /// The repository part is empty.
    EmptyRepository,
    /// The tag after the last `:` is empty.
    EmptyTag,
    /// The digest after the last `@` is empty.
    EmptyDigest,
}

/// Mathematical model of an [`ImageRefVersion`].
pub enum VersionView {
    Tag(Seq<char>),
    Digest(Seq<char>),
}

/// Mathematical model of an [`ImageRef`].
pub struct ImageRefView {
    pub registry: Seq<char>,
    pub repository: Seq<char>,
    pub version: VersionView,
}

impl View for ImageRefVersion {
    type V = VersionView;

    open spec fn view(&self) -> VersionView {
        match self {
            ImageRefVersion::Tag(t) => VersionView::Tag(t@),
            ImageRefVersion::Digest(d) => VersionView::Digest(d@),
        }
    }
}

impl View for ImageRef {
    type V = ImageRefView;

    open spec fn view(&self) -> ImageRefView {
        ImageRefView {
            registry: self.registry@,
            repository: self.repository@,
            version: self.version@,
        }
    }
}

/// The registry assumed when a reference names none.
pub open spec fn default_registry() -> Seq<char> {
    seq!['d', 'o', 'c', 'k', 'e', 'r', '.', 'i', 'o']
}

/// The tag assumed when a reference names neither a tag nor a digest.
pub open spec fn default_tag() -> Seq<char> {
    seq!['l', 'a', 't', 'e', 's', 't']
}

/// `i` is the position of the first `c` in `s`.
pub open spec fn is_first_at(s: Seq<char>, c: char, i: int) -> bool {
    0 <= i < s.len() && s[i] == c && forall|j: int| 0 <= j < i ==> s[j] != c
}

/// `i` is the position of the last `c` in `s`.
pub open spec fn is_last_at(s: Seq<char>, c: char, i: int) -> bool {
    0 <= i < s.len() && s[i] == c && forall|j: int| i < j < s.len() ==> s[j] != c
}

pub open spec fn has_char(s: Seq<char>, c: char) -> bool {
    exists|i: int| 0 <= i < s.len() && s[i] == c
}

pub open spec fn first_at(s: Seq<char>, c: char) -> int {
    choose|i: int| is_first_at(s, c, i)
}

pub open spec fn last_at(s: Seq<char>, c: char) -> int {
    choose|i: int| is_last_at(s, c, i)
}

/// Splits off the registry at the first `/`; without one the default registry is used.
pub open spec fn split_registry(s: Seq<char>) -> (Seq<char>, Seq<char>) {
    if has_char(s, '/') {
        let i = first_at(s, '/');
        (s.take(i), s.skip(i + 1))
    } else {
        (default_registry(), s)
    }
}

/// What parsing `s` yields: the registry before the first `/`, then a tag after the last
/// `:`, else a digest after the last `@`, else the default tag.
pub open spec fn parse_spec(s: Seq<char>) -> Result<ImageRefView, ImageRefError> {
    let (registry, rest) = split_registry(s);
    if registry.len() == 0 {
        Err(ImageRefError::EmptyRegistry)
    } else if has_char(rest, ':') {
        let i = last_at(rest, ':');
        if i == 0 {
            Err(ImageRefError::EmptyRepository)
        } else if i + 1 == rest.len() {
            Err(ImageRefError::EmptyTag)
        } else {
            Ok(ImageRefView {
                registry,
                repository: rest.take(i),
                version: VersionView::Tag(rest.skip(i + 1)),
            })
        }
    } else if has_char(rest, '@') {
        let i = last_at(rest, '@');
        if i == 0 {
            Err(ImageRefError::EmptyRepository)
        } else if i + 1 == rest.len() {
            Err(ImageRefError::EmptyDigest)
        } else {
            Ok(ImageRefView {
                registry,
                repository: rest.take(i),
                version: VersionView::Digest(rest.skip(i + 1)),
            })
        }
    } else if rest.len() == 0 {
        Err(ImageRefError::EmptyRepository)
    } else {
        Ok(ImageRefView { registry, repository: rest, version: VersionView::Tag(default_tag()) })
    }
}

proof fn lemma_first_exists(s: Seq<char>, c: char, k: int)
    requires
        0 <= k < s.len(),
        s[k] == c,
    ensures
        exists|i: int| is_first_at(s, c, i),
    decreases k,
{
    if exists|j: int| 0 <= j < k && s[j] == c {
        let j = choose|j: int| 0 <= j < k && s[j] == c;
        lemma_first_exists(s, c, j);
    } else {
        assert(is_first_at(s, c, k));
    }
}

proof fn lemma_last_exists(s: Seq<char>, c: char, k: int)
    requires
        0 <= k < s.len(),
        s[k] == c,
    ensures
        exists|i: int| is_last_at(s, c, i),
    decreases s.len() - k,
{
    if exists|j: int| k < j < s.len() && s[j] == c {
        let j = choose|j: int| k < j < s.len() && s[j] == c;
        lemma_last_exists(s, c, j);
    } else {
        assert(is_last_at(s, c, k));
    }
}

/// Where `c` occurs in `s`, the first and last positions are the ones that `first_at` and
/// `last_at` choose.
proof fn lemma_positions(s: Seq<char>, c: char)
    ensures
        has_char(s, c) ==> is_first_at(s, c, first_at(s, c)) && is_last_at(s, c, last_at(s, c)),
        forall|i: int| is_first_at(s, c, i) ==> i == first_at(s, c),
        forall|i: int| is_last_at(s, c, i) ==> i == last_at(s, c),
{
    if has_char(s, c) {
        let k = choose|k: int| 0 <= k < s.len() && s[k] == c;
        lemma_first_exists(s, c, k);
        lemma_last_exists(s, c, k);
    }
    assert forall|i: int| is_first_at(s, c, i) implies i == first_at(s, c) by {
        let f = first_at(s, c);
        assert(is_first_at(s, c, f));
    }
    assert forall|i: int| is_last_at(s, c, i) implies i == last_at(s, c) by {
        let l = last_at(s, c);
        assert(is_last_at(s, c, l));
    }
}

/// Parsing is undone by formatting: a reference that parses, written back in canonical
/// form (with the default registry and tag filled in), parses to the same reference.
pub proof fn lemma_canonical_round_trip(s: Seq<char>)
    requires
        parse_spec(s) is Ok,
    ensures
        parse_spec(canonical_form(parse_spec(s)->Ok_0)) == parse_spec(s),
{
    let v = parse_spec(s)->Ok_0;
    let (reg, rest) = split_registry(s);
    lemma_positions(s, '/');
    lemma_positions(rest, ':');
    lemma_positions(rest, '@');
    assert(!has_char(default_registry(), '/'));
    assert(!has_char(default_tag(), ':'));
    assert(forall|j: int| 0 <= j < reg.len() ==> reg[j] != '/');
    let c = canonical_form(v);
    let k = reg.len() as int;
    let rest2 = short_form(v);
    assert(c == reg + seq!['/'] + rest2);
    assert(is_first_at(c, '/', k));
    lemma_positions(c, '/');
    assert(c.take(k) =~= reg);
    assert(c.skip(k + 1) =~= rest2);
    assert(split_registry(c) == (reg, rest2));
    let p = v.repository.len() as int;
    lemma_positions(rest2, ':');
    lemma_positions(rest2, '@');
    match v.version {
        VersionView::Tag(t) => {
            assert(forall|j: int| 0 <= j < t.len() ==> t[j] != ':');
            assert(rest2 == v.repository + seq![':'] + t);
            assert(is_last_at(rest2, ':', p));
            assert(rest2.take(p) =~= v.repository);
            assert(rest2.skip(p + 1) =~= t);
        },
        VersionView::Digest(d) => {
            assert(!has_char(rest, ':'));
            assert(forall|j: int| 0 <= j < d.len() ==> d[j] != '@' && d[j] != ':');
            assert(forall|j: int| 0 <= j < p ==> v.repository[j] != ':');
            assert(rest2 == v.repository + seq!['@'] + d);
            assert(!has_char(rest2, ':'));
            assert(is_last_at(rest2, '@', p));
            assert(rest2.take(p) =~= v.repository);
            assert(rest2.skip(p + 1) =~= d);
        },
    }
}

fn find_first(s: &str, c: char) -> (r: Option<usize>)
    ensures
        match r {
            Some(i) => is_first_at(s@, c, i as int),
            None => !has_char(s@, c),
        },
{
    let n = s.unicode_len();
    let mut i: usize = 0;
    while i < n
        invariant
            n == s@.len(),
            i <= n,
            forall|j: int| 0 <= j < i ==> s@[j] != c,
        decreases n - i,
    {
        if s.get_char(i) == c {
            return Some(i);
        }
        i = i + 1;
    }
    None
}

fn find_last(s: &str, c: char) -> (r: Option<usize>)
    ensures
        match r {
            Some(i) => is_last_at(s@, c, i as int),
            None => !has_char(s@, c),
        },
{
    let n = s.unicode_len();
    let mut k: usize = n;
    while k > 0
        invariant
            n == s@.len(),
            k <= n,
            forall|j: int| k <= j < n ==> s@[j] != c,
        decreases k,
    {
        if s.get_char(k - 1) == c {
            return Some(k - 1);
        }
        k = k - 1;
    }
    None
}

/// The text after the repository: `:tag` or `@digest`.
pub open spec fn version_suffix(v: VersionView) -> Seq<char> {
    match v {
        VersionView::Tag(t) => seq![':'] + t,
        VersionView::Digest(d) => seq!['@'] + d,
    }
}

/// The short form of a reference: `repository:tag` or `repository@digest`.
pub open spec fn short_form(r: ImageRefView) -> Seq<char> {
    r.repository + version_suffix(r.version)
}

/// The canonical form of a reference: `registry/repository:tag` or
/// `registry/repository@digest`.
pub open spec fn canonical_form(r: ImageRefView) -> Seq<char> {
    r.registry + seq!['/'] + short_form(r)
}

impl ImageRefVersion {
    fn suffix(&self) -> (r: String)
        ensures
            r@ == version_suffix(self@),
    {
        match self {
            ImageRefVersion::Tag(t) => {
                let mut r = String::from_str(":");
                proof { reveal_strlit(":"); }
                r.append(t.as_str());
                r
            },
            ImageRefVersion::Digest(d) => {
                let mut r = String::from_str("@");
                proof { reveal_strlit("@"); }
                r.append(d.as_str());
                r
            },
        }
    }
}

impl ImageRef {
    /// Parses `[registry/]repository[:tag|@digest]`. The registry is the text before the
    /// first `/` (`docker.io` without one); a tag follows the last `:`, else a digest
    /// follows the last `@`, else the tag is `latest`.
    pub fn parse(s: &str) -> (r: Result<ImageRef, ImageRefError>)
        ensures
            match r {
                Ok(v) => parse_spec(s@) == Ok::<ImageRefView, ImageRefError>(v@),
                Err(e) => parse_spec(s@) == Err::<ImageRefView, ImageRefError>(e),
            },
    {
        let n = s.unicode_len();
        proof {
            lemma_positions(s@, '/');
        }
        let (registry, rest): (String, &str) = match find_first(s, '/') {
            Some(i) => {
                if i == 0 {
                    return Err(ImageRefError::EmptyRegistry);
                }
                (String::from_str(s.substring_char(0, i)), s.substring_char(i + 1, n))
            },
            None => {
                proof { reveal_strlit("docker.io"); }
                let registry = String::from_str("docker.io");
                assert(registry@ =~= default_registry());
                (registry, s)
            },
        };
        assert(registry@ == split_registry(s@).0);
        assert(rest@ == split_registry(s@).1);
        let m = rest.unicode_len();
        proof {
            lemma_positions(rest@, ':');
            lemma_positions(rest@, '@');
        }
        match find_last(rest, ':') {
            Some(i) => {
                if i == 0 {
                    return Err(ImageRefError::EmptyRepository);
                }
                if i + 1 == m {
                    return Err(ImageRefError::EmptyTag);
                }
                let repository = String::from_str(rest.substring_char(0, i));
                let tag = String::from_str(rest.substring_char(i + 1, m));
                return Ok(ImageRef { registry, repository, version: ImageRefVersion::Tag(tag) });
            },
            None => {},
        }
        match find_last(rest, '@') {
            Some(i) => {
                if i == 0 {
                    return Err(ImageRefError::EmptyRepository);
                }
                if i + 1 == m {
                    return Err(ImageRefError::EmptyDigest);
                }
                let repository = String::from_str(rest.substring_char(0, i));
                let digest = String::from_str(rest.substring_char(i + 1, m));
                Ok(ImageRef { registry, repository, version: ImageRefVersion::Digest(digest) })
            },
            None => {
                if m == 0 {
                    return Err(ImageRefError::EmptyRepository);
                }
                proof { reveal_strlit("latest"); }
                let tag = String::from_str("latest");
                assert(tag@ =~= default_tag());
                Ok(ImageRef {
                    registry,
                    repository: String::from_str(rest),
                    version: ImageRefVersion::Tag(tag),
                })
            },
        }
    }

    /// The short form `repository:tag` or `repository@digest`, without the registry.
    pub fn to_string(&self) -> (r: String)
        ensures
            r@ == short_form(self@),
    {
        let suffix = self.version.suffix();
        let mut r = self.repository.clone();
        r.append(suffix.as_str());
        r
    }

    /// The canonical form `registry/repository:tag` or `registry/repository@digest`.
    pub fn canonical(&self) -> (r: String)
        ensures
            r@ == canonical_form(self@),
    {
        let short = self.to_string();
        let mut r = self.registry.clone();
        proof { reveal_strlit("/"); }
        r.append("/");
        r.append(short.as_str());
        r
    }
}

impl std::str::FromStr for ImageRef {
    type Err = ImageRefError;

    fn from_str(s: &str) -> Result<ImageRef, ImageRefError> {
        ImageRef::parse(s)
    }
}

} // verus!
