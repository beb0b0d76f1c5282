use vstd::prelude::*;

verus! {

/// Spaces, tabs and carriage returns, which surround a line's content.
pub open spec fn is_blank(c: char) -> bool {
    c == ' ' || c == '\t' || c == '\r'
}

/// The first index in `[i, hi)` that holds no blank, or `hi`.
pub open spec fn skip_blank(s: Seq<char>, i: int, hi: int) -> int
    decreases hi - i,
{
    if i >= hi {
        hi
    } else if is_blank(s[i]) {
        skip_blank(s, i + 1, hi)
    } else {
        i
    }
}

/// The end of `[lo, j)` once trailing blanks are cut off.
pub open spec fn cut_blank(s: Seq<char>, lo: int, j: int) -> int
    decreases j - lo,
{
    if j <= lo {
        lo
    } else if is_blank(s[j - 1]) {
        cut_blank(s, lo, j - 1)
    } else {
        j
    }
}

/// The first index in `[i, hi)` that holds `c`, or `hi`.
pub open spec fn find_char(s: Seq<char>, c: char, i: int, hi: int) -> int
    decreases hi - i,
{
    if i >= hi {
        hi
    } else if s[i] == c {
        i
    } else {
        find_char(s, c, i + 1, hi)
    }
}

/// Where the scan of an array's inside stands.
pub enum ListState {
    /// Before an item (or before the closing bracket).
    BeforeItem,
    /// Inside a quoted item that started at the given index.
    InItem(int),
    /// After an item, before a comma or the closing bracket.
    AfterItem,
}

/// The quoted items of an array's inside `s[i..hi]`, separated by commas,
/// with blanks around them and one trailing comma allowed; `None` where
/// anything else stands there.
pub open spec fn list_items(s: Seq<char>, i: int, hi: int, st: ListState, acc: Seq<Seq<char>>)
    -> Option<Seq<Seq<char>>>
    decreases hi - i,
{
    if i >= hi {
        match st {
            ListState::InItem(_) => None,
            _ => Some(acc),
        }
    } else {
        let c = s[i];
        match st {
            ListState::BeforeItem => if is_blank(c) {
                list_items(s, i + 1, hi, st, acc)
            } else if c == '"' {
                list_items(s, i + 1, hi, ListState::InItem(i + 1), acc)
            } else {
                None
            },
            ListState::InItem(start) => if c == '"' {
                list_items(s, i + 1, hi, ListState::AfterItem, acc.push(s.subrange(start, i)))
            } else {
                list_items(s, i + 1, hi, st, acc)
            },
            ListState::AfterItem => if is_blank(c) {
                list_items(s, i + 1, hi, st, acc)
            } else if c == ',' {
                list_items(s, i + 1, hi, ListState::BeforeItem, acc)
            } else {
                None
            },
        }
    }
}

/// The quoted items of the array whose inside is `s[lo..hi]`.
pub open spec fn list_of(s: Seq<char>, lo: int, hi: int) -> Option<Seq<Seq<char>>> {
    list_items(s, lo, hi, ListState::BeforeItem, Seq::empty())
}

/// What the right-hand side of an assignment holds.
pub enum FieldValue {
    /// A quoted string.
    Text(Seq<char>),
    /// An array of quoted strings.
    List(Seq<Seq<char>>),
    /// Anything else: a number, a boolean, an array holding a non-string.
    Other,
}

/// The value written in `s[a..b]`, a range without surrounding blanks.
pub open spec fn value_at(s: Seq<char>, a: int, b: int) -> FieldValue {
    if b - a >= 2 && s[a] == '"' && s[b - 1] == '"' && find_char(s, '"', a + 1, b - 1) == b - 1 {
        FieldValue::Text(s.subrange(a + 1, b - 1))
    } else if b - a >= 2 && s[a] == '[' && s[b - 1] == ']' {
        match list_of(s, a + 1, b - 1) {
            Some(items) => FieldValue::List(items),
            None => FieldValue::Other,
        }
    } else {
        FieldValue::Other
    }
}

/// The table that the assignments of a manifest currently go to.
#[derive(Clone, Copy, Debug, PartialEq, Eq, Structural)]
pub enum Section {
    /// Before any table header.
    Top,
    /// `[meta]`
    Meta,
    /// `[build]`
    Build,
    /// Any other table, whose keys are ignored.
    Ignored,
}

/// The fields found so far while reading a manifest.
pub struct FieldsView {
    pub section: Section,
    pub name: Option<FieldValue>,
    pub version: Option<FieldValue>,
    pub compiler: Option<FieldValue>,
    pub cflags: Option<FieldValue>,
}

pub open spec fn meta_id() -> Seq<char> {
    seq!['m', 'e', 't', 'a']
}

pub open spec fn build_id() -> Seq<char> {
    seq!['b', 'u', 'i', 'l', 'd']
}

pub open spec fn name_id() -> Seq<char> {
    seq!['n', 'a', 'm', 'e']
}

pub open spec fn version_id() -> Seq<char> {
    seq!['v', 'e', 'r', 's', 'i', 'o', 'n']
}

pub open spec fn compiler_id() -> Seq<char> {
    seq!['c', 'o', 'm', 'p', 'i', 'l', 'e', 'r']
}

pub open spec fn cflags_id() -> Seq<char> {
    seq!['c', 'f', 'l', 'a', 'g', 's']
}

/// The table that a header's name selects.
pub open spec fn section_named(n: Seq<char>) -> Section {
    if n == meta_id() {
        Section::Meta
    } else if n == build_id() {
        Section::Build
    } else {
        Section::Ignored
    }
}

/// Records `key = v` in the current table; a later assignment of a key wins.
pub open spec fn assign(f: FieldsView, key: Seq<char>, v: FieldValue) -> FieldsView {
    if f.section == Section::Meta && key == name_id() {
        FieldsView { name: Some(v), ..f }
    } else if f.section == Section::Meta && key == version_id() {
        FieldsView { version: Some(v), ..f }
    } else if f.section == Section::Build && key == compiler_id() {
        FieldsView { compiler: Some(v), ..f }
    } else if f.section == Section::Build && key == cflags_id() {
        FieldsView { cflags: Some(v), ..f }
    } else {
        f
    }
}

/// Reads the line `s[lo..hi]`: blank lines and `#` comments change nothing,
/// `[name]` opens a table (blanks around the name are allowed), `key = value`
/// assigns; anything else is malformed.
pub open spec fn read_line(s: Seq<char>, lo: int, hi: int, f: FieldsView) -> Option<FieldsView> {
    let a = skip_blank(s, lo, hi);
    let b = cut_blank(s, a, hi);
    if a == b || s[a] == '#' {
        Some(f)
    } else if s[a] == '[' {
        if b - a >= 2 && s[b - 1] == ']' {
            let na = skip_blank(s, a + 1, b - 1);
            let nb = cut_blank(s, na, b - 1);
            Some(FieldsView { section: section_named(s.subrange(na, nb)), ..f })
        } else {
            None
        }
    } else {
        let e = find_char(s, '=', a, b);
        if e == b || e == a {
            None
        } else {
            let key = s.subrange(a, cut_blank(s, a, e));
            let va = skip_blank(s, e + 1, b);
            Some(assign(f, key, value_at(s, va, b)))
        }
    }
}

/// Reads the text from index `i` on, where the current line began at `start`.
pub open spec fn read_from(s: Seq<char>, i: int, start: int, f: FieldsView) -> Option<FieldsView>
    decreases s.len() - i,
{
    if i >= s.len() {
        read_line(s, start, s.len() as int, f)
    } else if s[i] == '\n' {
        match read_line(s, start, i, f) {
            Some(g) => read_from(s, i + 1, i + 1, g),
            None => None,
        }
    } else {
        read_from(s, i + 1, start, f)
    }
}

pub open spec fn no_fields() -> FieldsView {
    FieldsView { section: Section::Top, name: None, version: None, compiler: None, cflags: None }
}

/// A manifest's content as values.
pub struct ManifestView {
    pub name: Seq<char>,
    pub version: Seq<char>,
    pub compiler: Seq<char>,
    pub cflags: Seq<Seq<char>>,
}

/// The manifest that the fields make: `meta.name` must be a non-empty
/// string and `build.compiler` a string; `meta.version` is a string or
/// absent (then empty); `build.cflags` an array of strings or absent (then
/// empty).
pub open spec fn manifest_of_fields(f: FieldsView) -> Option<ManifestView> {
    match (f.name, f.compiler) {
        (Some(FieldValue::Text(name)), Some(FieldValue::Text(compiler))) => {
            let version = match f.version {
                None => Some(Seq::<char>::empty()),
                Some(FieldValue::Text(v)) => Some(v),
                _ => None,
            };
            let cflags = match f.cflags {
                None => Some(Seq::<Seq<char>>::empty()),
                Some(FieldValue::List(l)) => Some(l),
                _ => None,
            };
            if name.len() > 0 && version is Some && cflags is Some {
                Some(ManifestView { name, version: version->0, compiler, cflags: cflags->0 })
            } else {
                None
            }
        },
        _ => None,
    }
}

/// The manifest that a text describes, or `None` where it is invalid.
pub open spec fn manifest_of(s: Seq<char>) -> Option<ManifestView> {
    match read_from(s, 0, 0, no_fields()) {
        Some(f) => manifest_of_fields(f),
        None => None,
    }
}


/// The views of a list of strings.
pub open spec fn views(v: Seq<String>) -> Seq<Seq<char>> {
    v.map_values(|x: String| x@)
}

/// A parsed right-hand side.
pub enum Value {
    Text(String),
    List(Vec<String>),
    Other,
}

impl View for Value {
    type V = FieldValue;

    open spec fn view(&self) -> FieldValue {
        match self {
            Value::Text(t) => FieldValue::Text(t@),
            Value::List(l) => FieldValue::List(views(l@)),
            Value::Other => FieldValue::Other,
        }
    }
}

pub open spec fn value_view(v: Option<Value>) -> Option<FieldValue> {
    match v {
        Some(x) => Some(x@),
        None => None,
    }
}

/// The fields found so far while reading a manifest.
pub struct Fields {
    pub section: Section,
    pub name: Option<Value>,
    pub version: Option<Value>,
    pub compiler: Option<Value>,
    pub cflags: Option<Value>,
}

impl View for Fields {
    type V = FieldsView;

    open spec fn view(&self) -> FieldsView {
        FieldsView {
            section: self.section,
            name: value_view(self.name),
            version: value_view(self.version),
            compiler: value_view(self.compiler),
            cflags: value_view(self.cflags),
        }
    }
}

/// The program's own settings, read from the `[meta]` table.
pub struct Meta {
    pub name: String,
    pub version: String,
}

/// How to compile, read from the `[build]` table.
pub struct BuildSettings {
    pub compiler: String,
    pub cflags: Vec<String>,
}

/// A project's manifest.
pub struct Manifest {
    pub meta: Meta,
    pub build: BuildSettings,
}

impl View for Manifest {
    type V = ManifestView;

    open spec fn view(&self) -> ManifestView {
        ManifestView {
            name: self.meta.name@,
            version: self.meta.version@,
            compiler: self.build.compiler@,
            cflags: views(self.build.cflags@),
        }
    }
}

fn skip_blank_at(cs: &Vec<char>, i: usize, hi: usize) -> (r: usize)
    requires
        i <= hi <= cs@.len(),
    ensures
        r == skip_blank(cs@, i as int, hi as int),
        i <= r <= hi,
        r < hi ==> !is_blank(cs@[r as int]),
{
    let mut j = i;
    while j < hi && (cs[j] == ' ' || cs[j] == '\t' || cs[j] == '\r')
        invariant
            i <= j <= hi <= cs@.len(),
            skip_blank(cs@, j as int, hi as int) == skip_blank(cs@, i as int, hi as int),
        decreases hi - j,
    {
        j = j + 1;
    }
    j
}

fn cut_blank_at(cs: &Vec<char>, lo: usize, j: usize) -> (r: usize)
    requires
        lo <= j <= cs@.len(),
    ensures
        r == cut_blank(cs@, lo as int, j as int),
        lo <= r <= j,
{
    let mut k = j;
    while k > lo && (cs[k - 1] == ' ' || cs[k - 1] == '\t' || cs[k - 1] == '\r')
        invariant
            lo <= k <= j <= cs@.len(),
            cut_blank(cs@, lo as int, k as int) == cut_blank(cs@, lo as int, j as int),
        decreases k - lo,
    {
        k = k - 1;
    }
    k
}

fn find_char_at(cs: &Vec<char>, c: char, i: usize, hi: usize) -> (r: usize)
    requires
        i <= hi <= cs@.len(),
    ensures
        r == find_char(cs@, c, i as int, hi as int),
        i <= r <= hi,
{
    let mut j = i;
    while j < hi && cs[j] != c
        invariant
            i <= j <= hi <= cs@.len(),
            find_char(cs@, c, j as int, hi as int) == find_char(cs@, c, i as int, hi as int),
        decreases hi - j,
    {
        j = j + 1;
    }
    j
}

/// Whether `cs[a..b]` holds exactly the characters of `lit`.
fn range_is(cs: &Vec<char>, a: usize, b: usize, lit: &str) -> (r: bool)
    requires
        a <= b <= cs@.len(),
    ensures
        r == (cs@.subrange(a as int, b as int) == lit@),
{
    let n = lit.unicode_len();
    if b - a != n {
        return false;
    }
    let mut i: usize = 0;
    while i < n
        invariant
            n == lit@.len(),
            b - a == n,
            a <= b <= cs@.len(),
            i <= n,
            forall|j: int| 0 <= j < i ==> cs@[a + j] == #[trigger] lit@[j],
        decreases n - i,
    {
        if cs[a + i] != lit.get_char(i) {
            assert(cs@.subrange(a as int, b as int)[i as int] != lit@[i as int]);
            return false;
        }
        i = i + 1;
    }
    assert(cs@.subrange(a as int, b as int) =~= lit@);
    true
}

/// The exact copy of the characters `text[a..b]`.
fn copy_range(text: &str, a: usize, b: usize) -> (r: String)
    requires
        a <= b <= text@.len(),
    ensures
        r@ == text@.subrange(a as int, b as int),
{
    text.substring_char(a, b).to_owned()
}

fn list_at(text: &str, cs: &Vec<char>, lo: usize, hi: usize) -> (r: Option<Vec<String>>)
    requires
        cs@ == text@,
        lo <= hi <= cs@.len(),
    ensures
        match r {
            Some(v) => list_of(cs@, lo as int, hi as int) == Some(views(v@)),
            None => list_of(cs@, lo as int, hi as int) is None,
        },
{
    let ghost goal = list_of(cs@, lo as int, hi as int);
    let mut acc: Vec<String> = Vec::new();
    // 0: before an item, 1: inside one, 2: after one
    let mut phase: u8 = 0;
    let mut start: usize = lo;
    let mut i = lo;
    proof {
        assert(views(acc@) =~= Seq::<Seq<char>>::empty());
    }
    while i < hi
        invariant
            cs@ == text@,
            lo <= i <= hi <= cs@.len(),
            phase <= 2,
            start <= i,
            goal == list_of(cs@, lo as int, hi as int),
            goal == list_items(
                cs@,
                i as int,
                hi as int,
                if phase == 0 {
                    ListState::BeforeItem
                } else if phase == 1 {
                    ListState::InItem(start as int)
                } else {
                    ListState::AfterItem
                },
                views(acc@),
            ),
        decreases hi - i,
    {
        let c = cs[i];
        if phase == 0 {
            if c == ' ' || c == '\t' || c == '\r' {
            } else if c == '"' {
                phase = 1;
                start = i + 1;
            } else {
                assert(list_items(cs@, i as int, hi as int, ListState::BeforeItem, views(acc@))
                    is None);
                return None;
            }
        } else if phase == 1 {
            if c == '"' {
                let item = copy_range(text, start, i);
                let ghost before = acc@;
                acc.push(item);
                proof {
                    assert(views(acc@) =~= views(before).push(cs@.subrange(start as int, i as int)));
                }
                phase = 2;
            }
        } else {
            if c == ' ' || c == '\t' || c == '\r' {
            } else if c == ',' {
                phase = 0;
            } else {
                assert(list_items(cs@, i as int, hi as int, ListState::AfterItem, views(acc@))
                    is None);
                return None;
            }
        }
        i = i + 1;
    }
    if phase == 1 {
        None
    } else {
        Some(acc)
    }
}

fn value_in(text: &str, cs: &Vec<char>, a: usize, b: usize) -> (r: Value)
    requires
        cs@ == text@,
        a <= b <= cs@.len(),
    ensures
        r@ == value_at(cs@, a as int, b as int),
{
    if b - a >= 2 && cs[a] == '"' && cs[b - 1] == '"' && find_char_at(cs, '"', a + 1, b - 1) == b
        - 1 {
        Value::Text(copy_range(text, a + 1, b - 1))
    } else if b - a >= 2 && cs[a] == '[' && cs[b - 1] == ']' {
        match list_at(text, cs, a + 1, b - 1) {
            Some(items) => Value::List(items),
            None => Value::Other,
        }
    } else {
        Value::Other
    }
}

fn line_in(text: &str, cs: &Vec<char>, lo: usize, hi: usize, f: Fields) -> (r: Option<Fields>)
    requires
        cs@ == text@,
        lo <= hi <= cs@.len(),
    ensures
        match r {
            Some(g) => read_line(cs@, lo as int, hi as int, f@) == Some(g@),
            None => read_line(cs@, lo as int, hi as int, f@) is None,
        },
{
    proof {
        reveal_strlit("meta");
        reveal_strlit("build");
        reveal_strlit("name");
        reveal_strlit("version");
        reveal_strlit("compiler");
        reveal_strlit("cflags");
        assert("meta"@ =~= meta_id());
        assert("build"@ =~= build_id());
        assert("name"@ =~= name_id());
        assert("version"@ =~= version_id());
        assert("compiler"@ =~= compiler_id());
        assert("cflags"@ =~= cflags_id());
    }
    let a = skip_blank_at(cs, lo, hi);
    let b = cut_blank_at(cs, a, hi);
    if a == b || cs[a] == '#' {
        return Some(f);
    }
    if cs[a] == '[' {
        if b - a >= 2 && cs[b - 1] == ']' {
            let na = skip_blank_at(cs, a + 1, b - 1);
            let nb = cut_blank_at(cs, na, b - 1);
            let section = if range_is(cs, na, nb, "meta") {
                Section::Meta
            } else if range_is(cs, na, nb, "build") {
                Section::Build
            } else {
                Section::Ignored
            };
            return Some(Fields { section, ..f });
        } else {
            return None;
        }
    }
    let e = find_char_at(cs, '=', a, b);
    if e == b || e == a {
        return None;
    }
    let k = cut_blank_at(cs, a, e);
    let va = skip_blank_at(cs, e + 1, b);
    let v = value_in(text, cs, va, b);
    let meta = f.section == Section::Meta;
    let build = f.section == Section::Build;
    if meta && range_is(cs, a, k, "name") {
        Some(Fields { name: Some(v), ..f })
    } else if meta && range_is(cs, a, k, "version") {
        Some(Fields { version: Some(v), ..f })
    } else if build && range_is(cs, a, k, "compiler") {
        Some(Fields { compiler: Some(v), ..f })
    } else if build && range_is(cs, a, k, "cflags") {
        Some(Fields { cflags: Some(v), ..f })
    } else {
        Some(f)
    }
}

/// The characters of a string, one by one.
fn chars_of(text: &str) -> (r: Vec<char>)
    ensures
        r@ == text@,
{
    let n = text.unicode_len();
    let mut r: Vec<char> = Vec::new();
    let mut i: usize = 0;
    while i < n
        invariant
            n == text@.len(),
            i <= n,
            r@ == text@.subrange(0, i as int),
        decreases n - i,
    {
        r.push(text.get_char(i));
        i = i + 1;
        assert(r@ =~= text@.subrange(0, i as int));
    }
    assert(text@.subrange(0, n as int) =~= text@);
    r
}

impl Manifest {
    /// Parses a manifest's text.
    ///
    /// The text is read line by line: blank lines and lines that start with
    /// `#` are skipped, `[meta]` and `[build]` open those tables (other
    /// tables are read and ignored), and `key = value` assigns, where a value
    /// is a quoted string, an array of quoted strings, or anything else.
    /// This is a line-based subset of TOML: a string is written in double
    /// quotes with no escapes and no quote inside, an array stands on one
    /// line, and a comment fills a line of its own (text after a value makes
    /// the value no string). `meta.version` may be left out (it is then
    /// empty), and so may `build.cflags` (no flags).
    /// Fails with `InvalidManifest` on a malformed line, where `meta.name` is
    /// absent, empty or no string, where `build.compiler` is absent or no
    /// string, where `meta.version` is no string, or where `build.cflags`
    /// is no array of strings.
    pub fn parse(text: &str) -> (r: Result<Manifest, crate::error::BuildError>)
        ensures
            match r {
                Ok(m) => manifest_of(text@) == Some(m@),
                Err(e) => manifest_of(text@) is None && e is InvalidManifest,
            },
    {
        let cs = chars_of(text);
        let n = cs.len();
        let mut f = Fields {
            section: Section::Top,
            name: None,
            version: None,
            compiler: None,
            cflags: None,
        };
        let mut start: usize = 0;
        let mut i: usize = 0;
        while i < n
            invariant
                cs@ == text@,
                n == cs@.len(),
                start <= i <= n,
                read_from(cs@, i as int, start as int, f@) == read_from(cs@, 0, 0, no_fields()),
            decreases n - i,
        {
            if cs[i] == '\n' {
                match line_in(text, &cs, start, i, f) {
                    Some(g) => {
                        f = g;
                    },
                    None => {
                        return Err(crate::error::BuildError::InvalidManifest);
                    },
                }
                start = i + 1;
            }
            i = i + 1;
        }
        let f = match line_in(text, &cs, start, n, f) {
            Some(g) => g,
            None => {
                return Err(crate::error::BuildError::InvalidManifest);
            },
        };
        let name = match f.name {
            Some(Value::Text(t)) => t,
            _ => {
                return Err(crate::error::BuildError::InvalidManifest);
            },
        };
        let compiler = match f.compiler {
            Some(Value::Text(t)) => t,
            _ => {
                return Err(crate::error::BuildError::InvalidManifest);
            },
        };
        let version = match f.version {
            None => String::new(),
            Some(Value::Text(t)) => t,
            _ => {
                return Err(crate::error::BuildError::InvalidManifest);
            },
        };
        let cflags = match f.cflags {
            None => Vec::new(),
            Some(Value::List(l)) => l,
            _ => {
                return Err(crate::error::BuildError::InvalidManifest);
            },
        };
        if name.unicode_len() == 0 {
            return Err(crate::error::BuildError::InvalidManifest);
        }
        proof {
            assert(views(cflags@) =~= match f@.cflags {
                None => Seq::<Seq<char>>::empty(),
                Some(FieldValue::List(l)) => l,
                _ => Seq::<Seq<char>>::empty(),
            });
        }
        Ok(Manifest { meta: Meta { name, version }, build: BuildSettings { compiler, cflags } })
    }
}


/// A manifest without `meta.name` or `build.compiler`, or whose
/// `build.cflags` is not an array of strings, is invalid.
pub proof fn incomplete_manifest_rejected(s: Seq<char>)
    requires
        read_from(s, 0, 0, no_fields()) matches Some(f) && (f.name is None || f.compiler is None
            || f.cflags == Some(FieldValue::Other)),
    ensures
        manifest_of(s) is None,
{
}

/// An array item that is not a quoted string makes the array no list of
/// strings: once the scan stands before an item at a character that is
/// neither blank nor a quote, it fails.
pub proof fn unquoted_item_rejected(s: Seq<char>, i: int, hi: int, acc: Seq<Seq<char>>)
    requires
        0 <= i < hi <= s.len(),
        !is_blank(s[i]),
        s[i] != '"',
    ensures
        list_items(s, i, hi, ListState::BeforeItem, acc) is None,
{
}

} // verus!
