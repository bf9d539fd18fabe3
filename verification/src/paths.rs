//! Where the player keeps its files, and how paths are written.

use vstd::prelude::*;
use vstd::string::*;

use crate::digest::{hex, hex_digit};
use crate::text::{
    chars_of, join_texts, joined, joined_by, part, pieces, same, split_pieces, string_of, texts,
    CharClass,
};

verus! {

/// How the paths of a system are written. The server and the share of a path of the network count
/// as parts of it.
#[derive(Clone, Copy, Debug, PartialEq, Eq, Structural)]
pub enum PathStyle {
    /// Parts between slashes.
    Unix,
    /// With drive letters, and parts between slashes or backslashes.
    Windows,
}

/// The paths that a Windows system takes as they are written start with this mark.
pub open spec fn verbatim_mark() -> Seq<char> {
    "\\\\?\\"@
}

/// The same letter of a drive, in either case.
pub open spec fn same_letter(a: char, b: char) -> bool {
    a == b || a as u32 == b as u32 + 32 || b as u32 == a as u32 + 32
}

fn letters_match(a: char, b: char) -> (result: bool)
    ensures
        result == same_letter(a, b),
{
    let (x, y): (u32, u32) = (a as u32, b as u32);
    a == b || (x >= 32 && x - 32 == y) || (y >= 32 && y - 32 == x)
}

/// Whether a part of a path is more than a dot, which stands for the folder it is in.
pub open spec fn is_no_dot(part: Seq<char>) -> bool {
    part != "."@
}

impl PathStyle {
    pub open spec fn separates(self, c: char) -> bool {
        c == '/' || (self == PathStyle::Windows && c == '\\')
    }

    pub fn is_separator(self, c: char) -> (result: bool)
        ensures
            result == self.separates(c),
    {
        c == '/' || (self == PathStyle::Windows && c == '\\')
    }

    /// A path that starts with the letter of a drive.
    pub open spec fn has_drive(self, path: Seq<char>) -> bool {
        self == PathStyle::Windows && path.len() >= 2 && path[1] == ':' && (('a' <= path[0]
            && path[0] <= 'z') || ('A' <= path[0] && path[0] <= 'Z'))
    }

    fn starts_with_drive(self, path: &[char]) -> (result: bool)
        ensures
            result == self.has_drive(path@),
    {
        self == PathStyle::Windows && path.len() >= 2 && path[1] == ':' && (('a' <= path[0]
            && path[0] <= 'z') || ('A' <= path[0] && path[0] <= 'Z'))
    }

    /// How much of a path names where it starts: a drive, a root, or both.
    pub open spec fn root(self, path: Seq<char>) -> int {
        let drive = if self.has_drive(path) {
            2int
        } else {
            0
        };
        if drive < path.len() && self.separates(path[drive]) {
            drive + 1
        } else {
            drive
        }
    }

    fn root_length(self, path: &[char]) -> (result: usize)
        ensures
            result == self.root(path@),
            result <= path@.len(),
    {
        let drive: usize = if self.starts_with_drive(path) {
            2
        } else {
            0
        };
        if drive < path.len() && self.is_separator(path[drive]) {
            drive + 1
        } else {
            drive
        }
    }

    /// The end of a path without the separators behind it, and without parts that are a dot: they
    /// name the folder they stand in.
    pub open spec fn trimmed(self, path: Seq<char>, end: int) -> int
        decreases end,
    {
        let root = self.root(path);
        if end <= root || end > path.len() {
            end
        } else if self.separates(path[end - 1]) {
            self.trimmed(path, end - 1)
        } else if path[end - 1] == '.' && end >= 2 && self.separates(path[end - 2]) {
            self.trimmed(path, end - 1)
        } else {
            end
        }
    }

    pub fn trim(self, path: &[char], end: usize) -> (result: usize)
        requires
            end <= path@.len(),
        ensures
            result == self.trimmed(path@, end as int),
            result <= end,
    {
        let root: usize = self.root_length(path);
        let mut at: usize = end;
        while at > root && (self.is_separator(path[at - 1]) || (path[at - 1] == '.' && at >= 2
            && self.is_separator(path[at - 2])))
            invariant
                at <= end <= path@.len(),
                root == self.root(path@),
                self.trimmed(path@, end as int) == self.trimmed(path@, at as int),
            decreases at,
        {
            at -= 1;
        }
        at
    }

    /// The start of the last part of a path that ends at `end`.
    pub open spec fn part_start(self, path: Seq<char>, end: int) -> int
        decreases end,
    {
        if end <= self.root(path) || end > path.len() || self.separates(path[end - 1]) {
            end
        } else {
            self.part_start(path, end - 1)
        }
    }

    pub fn last_part(self, path: &[char], end: usize) -> (result: usize)
        requires
            end <= path@.len(),
        ensures
            result == self.part_start(path@, end as int),
            result <= end,
    {
        let root: usize = self.root_length(path);
        let mut at: usize = end;
        while at > root && !self.is_separator(path[at - 1])
            invariant
                at <= end <= path@.len(),
                root == self.root(path@),
                self.part_start(path@, end as int) == self.part_start(path@, at as int),
            decreases at,
        {
            at -= 1;
        }
        at
    }

    /// The characters that part a path.
    pub open spec fn separators(self) -> CharClass {
        match self {
            PathStyle::Unix => CharClass::Only('/'),
            PathStyle::Windows => CharClass::Separator,
        }
    }

    fn separator_class(self) -> (result: CharClass)
        ensures
            result == self.separators(),
    {
        match self {
            PathStyle::Unix => CharClass::Only('/'),
            PathStyle::Windows => CharClass::Separator,
        }
    }

    /// The part that starts at `from` leads to the parent directory.
    pub open spec fn up_at(self, s: Seq<char>, from: int) -> bool {
        &&& 0 <= from && from + 2 <= s.len()
        &&& from == 0 || self.separates(s[from - 1])
        &&& from + 2 == s.len() || self.separates(s[from + 2])
        &&& s[from] == '.' && s[from + 1] == '.'
    }

    /// A part of the path leads to the parent directory.
    pub open spec fn leads_up(self, s: Seq<char>) -> bool {
        exists|from: int| #[trigger] self.up_at(s, from)
    }

    fn has_parent(self, chars: &[char]) -> (result: bool)
        ensures
            result == self.leads_up(chars@),
    {
        let length: usize = chars.len();
        let mut i: usize = 0;
        while i < length
            invariant
                i <= length == chars@.len(),
                forall|j: int| 0 <= j < i ==> !#[trigger] self.up_at(chars@, j),
            decreases length - i,
        {
            if length - i >= 2 && (i == 0 || self.is_separator(chars[i - 1])) && (i + 2 == length
                || self.is_separator(chars[i + 2])) && chars[i] == '.' && chars[i + 1] == '.' {
                assert(self.up_at(chars@, i as int));
                return true;
            }
            i += 1;
        }
        false
    }

    /// A path that can be looked up below another: it is not empty, names no root and no drive, and
    /// does not lead up.
    pub open spec fn is_relative(self, s: Seq<char>) -> bool {
        s.len() > 0 && !self.separates(s[0]) && !self.has_drive(s) && !self.leads_up(s)
    }

    pub fn accepts(self, path: &str) -> (result: bool)
        ensures
            result == self.is_relative(path@),
    {
        let chars = chars_of(path);
        chars.len() > 0 && !self.is_separator(chars[0]) && !self.starts_with_drive(&chars)
            && !self.has_parent(&chars)
    }

    /// The path is taken as it is written.
    pub open spec fn is_verbatim(self, path: Seq<char>) -> bool {
        self == PathStyle::Windows && path.len() >= 4 && path.take(4) == verbatim_mark()
    }

    fn starts_verbatim(self, path: &[char]) -> (result: bool)
        ensures
            result == self.is_verbatim(path@),
    {
        proof {
            reveal_strlit("\\\\?\\");
        }
        if self == PathStyle::Unix || path.len() < 4 {
            return false;
        }
        let result: bool = path[0] == '\\' && path[1] == '\\' && path[2] == '?' && path[3] == '\\';
        proof {
            let start = path@.take(4);
            assert(start[0] == path@[0] && start[1] == path@[1] && start[2] == path@[2] && start[3]
                == path@[3]);
            if result {
                assert(start =~= verbatim_mark());
            }
        }
        result
    }

    /// Some text can stand below a path: it names no root, and does not lead up.
    pub open spec fn goes_below(self, name: Seq<char>) -> bool {
        (name.len() == 0 || !self.separates(name[0])) && !self.leads_up(name)
    }

    /// A path and a name below it. A drive of its own replaces the path. Below a path that is taken
    /// as it is written, a name is written out: one backslash between its parts, and no dots.
    pub open spec fn joined(self, base: Seq<char>, name: Seq<char>) -> Seq<char> {
        if self.has_drive(name) {
            name
        } else if self.is_verbatim(base) && name.len() > 0 {
            verbatim_mark() + joined_by(
                pieces(base, 4, CharClass::Only('\\')) + pieces(
                    name,
                    0,
                    CharClass::Separator,
                ).filter(|part: Seq<char>| is_no_dot(part)),
                "\\"@,
            )
        } else if base.len() == 0 || self.separates(base.last()) || (base.len() == 2
            && self.has_drive(base)) {
            base + name
        } else if self == PathStyle::Windows {
            base + "\\"@ + name
        } else {
            base + "/"@ + name
        }
    }

    pub fn join(self, base: &str, name: &str) -> (result: String)
        requires
            self.goes_below(name@),
        ensures
            result@ == self.joined(base@, name@),
    {
        let names = chars_of(name);
        if self.starts_with_drive(&names) {
            return name.to_owned();
        }
        let chars = chars_of(base);
        let size: usize = chars.len();
        if names.len() > 0 && self.starts_verbatim(&chars) {
            let mut list = split_pieces(&chars, 4, CharClass::Only('\\'));
            let ghost held = texts(list@);
            let mut more = no_dots(split_pieces(&names, 0, CharClass::Separator));
            let ghost added = texts(more@);
            list.append(&mut more);
            assert(texts(list@) =~= held + added);
            return joined("\\\\?\\", join_texts(&list, "\\").as_str());
        }
        if size == 0 || self.is_separator(chars[size - 1]) || (size == 2 && self.starts_with_drive(
            &chars,
        )) {
            return joined(base, name);
        }
        let mut result = if self == PathStyle::Windows {
            joined(base, "\\")
        } else {
            joined(base, "/")
        };
        result.append(name);
        result
    }

    /// The parts of a path behind its root, without dots.
    pub open spec fn parts(self, path: Seq<char>) -> Seq<Seq<char>> {
        pieces(path, self.root(path), self.separators()).filter(|part: Seq<char>| is_no_dot(part))
    }

    /// The path starts with a dot, which counts where there is no root before it.
    pub open spec fn starts_with_dot(self, path: Seq<char>) -> bool {
        let root = self.root(path);
        &&& root < path.len() && path[root] == '.'
        &&& root + 1 == path.len() || self.separates(path[root + 1])
        &&& root == 0 || !self.separates(path[root - 1])
    }

    /// The path starts with two separators, as one of the network does.
    pub open spec fn is_remote(self, path: Seq<char>) -> bool {
        self == PathStyle::Windows && path.len() >= 2 && self.separates(path[0]) && self.separates(
            path[1],
        )
    }

    /// The two paths are the same: they start at the same place and have the same parts. The case
    /// of a drive's letter does not count.
    pub open spec fn same_path(self, a: Seq<char>, b: Seq<char>) -> bool {
        let (x, y) = (self.root(a), self.root(b));
        &&& x == y
        &&& self.has_drive(a) == self.has_drive(b)
        &&& self.has_drive(a) ==> same_letter(a[0], b[0])
        &&& self.is_remote(a) == self.is_remote(b)
        &&& self.is_verbatim(a) == self.is_verbatim(b)
        &&& self.starts_with_dot(a) == self.starts_with_dot(b)
        &&& self.parts(a) == self.parts(b)
    }

    fn starts_remote(self, path: &[char]) -> (result: bool)
        ensures
            result == self.is_remote(path@),
    {
        self == PathStyle::Windows && path.len() >= 2 && self.is_separator(path[0])
            && self.is_separator(path[1])
    }

    fn dot_first(self, path: &[char], root: usize) -> (result: bool)
        requires
            root == self.root(path@),
            root <= path@.len(),
        ensures
            result == self.starts_with_dot(path@),
    {
        root < path.len() && path[root] == '.' && (root + 1 == path.len() || self.is_separator(
            path[root + 1],
        )) && (root == 0 || !self.is_separator(path[root - 1]))
    }

    pub fn is_same(self, a: &str, b: &str) -> (result: bool)
        ensures
            result == self.same_path(a@, b@),
    {
        let (first_path, second_path) = (chars_of(a), chars_of(b));
        let x: usize = self.root_length(&first_path);
        let y: usize = self.root_length(&second_path);
        let drive: bool = self.starts_with_drive(&first_path);
        if x != y || drive != self.starts_with_drive(&second_path) || (drive && !letters_match(
            first_path[0],
            second_path[0],
        )) || self.dot_first(&first_path, x) != self.dot_first(&second_path, y) {
            return false;
        }
        if self.starts_remote(&first_path) != self.starts_remote(&second_path)
            || self.starts_verbatim(&first_path) != self.starts_verbatim(&second_path) {
            return false;
        }
        let class: CharClass = self.separator_class();
        let own = no_dots(split_pieces(&first_path, x, class));
        let other = no_dots(split_pieces(&second_path, y, class));
        same_texts(&own, &other)
    }

    /// Where the last part of a path starts and ends, where it is the name of a file.
    pub open spec fn file_name(self, s: Seq<char>) -> Option<(int, int)> {
        let end = self.trimmed(s, s.len() as int);
        let from = self.part_start(s, end);
        let own = s.subrange(from, end);
        if from == end || own == "."@ || own == ".."@ {
            None
        } else {
            Some((from, end))
        }
    }

    pub fn name_place(self, chars: &[char]) -> (result: Option<(usize, usize)>)
        ensures
            match result {
                Some((from, end)) => self.file_name(chars@) == Some((from as int, end as int))
                    && from < end <= chars@.len(),
                None => self.file_name(chars@) is None,
            },
    {
        let end: usize = self.trim(chars, chars.len());
        let from: usize = self.last_part(chars, end);
        let own = string_of(&part(chars, from, end));
        if from == end || same(own.as_str(), ".") || same(own.as_str(), "..") {
            None
        } else {
            Some((from, end))
        }
    }

    /// The folder of a file: the path without its last part, unless there is none, or it only
    /// stands for a folder.
    pub open spec fn folder(self, path: Seq<char>) -> Seq<char> {
        match self.file_name(path) {
            Some((from, _)) => path.take(self.trimmed(path, from)),
            None => path,
        }
    }

    /// The path of a file under another name.
    pub open spec fn renamed(self, path: Seq<char>, name: Seq<char>) -> Seq<char> {
        self.joined(self.folder(path), name)
    }

    pub fn rename(self, path: &str, name: &str) -> (result: String)
        requires
            self.goes_below(name@),
        ensures
            result@ == self.renamed(path@, name@),
    {
        let chars = chars_of(path);
        let folder: Vec<char> = match self.name_place(&chars) {
            Some((from, _)) => {
                let until: usize = self.trim(&chars, from);
                part(&chars, 0, until)
            },
            None => part(&chars, 0, chars.len()),
        };
        assert(folder@ =~= self.folder(path@));
        self.join(string_of(&folder).as_str(), name)
    }
}

fn no_dots(list: Vec<String>) -> (result: Vec<String>)
    ensures
        texts(result@) == texts(list@).filter(|part: Seq<char>| is_no_dot(part)),
{
    let ghost keep = |part: Seq<char>| is_no_dot(part);
    let mut result: Vec<String> = Vec::new();
    let mut i: usize = 0;
    proof {
        reveal(Seq::filter);
    }
    assert(texts(result@) =~= texts(list@).take(0).filter(keep));
    while i < list.len()
        invariant
            i <= list@.len(),
            keep == (|part: Seq<char>| is_no_dot(part)),
            texts(result@) == texts(list@).take(i as int).filter(keep),
        decreases list@.len() - i,
    {
        let ghost held = texts(result@);
        proof {
            reveal(Seq::filter);
            let t = texts(list@).take(i + 1);
            assert(t.drop_last() =~= texts(list@).take(i as int));
            assert(t.last() == list@[i as int]@);
        }
        if !same(list[i].as_str(), ".") {
            result.push(list[i].clone());
            assert(texts(result@) =~= held.push(list@[i as int]@));
        }
        i += 1;
    }
    assert(texts(list@).take(i as int) =~= texts(list@));
    result
}

fn same_texts(a: &Vec<String>, b: &Vec<String>) -> (result: bool)
    ensures
        result == (texts(a@) == texts(b@)),
{
    if a.len() != b.len() {
        assert(texts(a@).len() != texts(b@).len());
        return false;
    }
    let mut i: usize = 0;
    while i < a.len()
        invariant
            i <= a@.len() == b@.len(),
            forall|j: int| 0 <= j < i ==> (#[trigger] a@[j])@ == b@[j]@,
        decreases a@.len() - i,
    {
        if !same(a[i].as_str(), b[i].as_str()) {
            assert(texts(a@)[i as int] != texts(b@)[i as int]);
            return false;
        }
        i += 1;
    }
    assert(texts(a@) =~= texts(b@));
    true
}

/// A name of one part goes below a path.
pub proof fn plain_names_go_below(style: PathStyle, name: Seq<char>)
    requires
        name != ".."@,
        forall|i: int| 0 <= i < name.len() ==> !CharClass::Separator.has(#[trigger] name[i]),
    ensures
        style.goes_below(name),
{
    reveal_strlit("..");
    if style.leads_up(name) {
        let from = choose|from: int| #[trigger] style.up_at(name, from);
        if from > 0 {
            assert(!CharClass::Separator.has(name[from - 1]));
        }
        if from + 2 < name.len() {
            assert(!CharClass::Separator.has(name[from + 2]));
        }
        assert(name =~= ".."@);
    }
}

/// Hexadecimal text holds neither separators nor dots.
pub proof fn hex_is_plain(bytes: Seq<u8>)
    ensures
        forall|i: int|
            0 <= i < hex(bytes).len() ==> !CharClass::Separator.has(#[trigger] hex(bytes)[i])
                && hex(bytes)[i] != '.',
{
    let name = hex(bytes);
    assert forall|i: int| 0 <= i < name.len() implies {
        &&& !CharClass::Separator.has(#[trigger] name[i])
        &&& name[i] != '.'
    } by {
        hex_digits_are_plain(bytes[i / 2] / 16);
        hex_digits_are_plain(bytes[i / 2] % 16);
    }
}

/// The hexadecimal text of some bytes goes below a path.
pub proof fn hex_goes_below(style: PathStyle, bytes: Seq<u8>)
    ensures
        style.goes_below(hex(bytes)),
{
    reveal_strlit("..");
    let name = hex(bytes);
    hex_is_plain(bytes);
    if name == ".."@ {
        assert(name[0] == '.');
    }
    plain_names_go_below(style, name);
}

proof fn hex_digits_are_plain(n: u8)
    requires
        n < 16,
    ensures
        hex_digit(n) != '/' && hex_digit(n) != '\\' && hex_digit(n) != '.',
{
}

proof fn own_names_go_below(style: PathStyle)
    ensures
        style.goes_below("settings.json"@),
        style.goes_below("store"@),
        style.goes_below("rufin-store.sqlite"@),
        style.goes_below("rufin-catalog.sqlite"@),
        style.goes_below("covers"@),
        style.goes_below("playback"@),
        style.goes_below("downloads"@),
        style.goes_below("releases.json"@),
{
    reveal_strlit("..");
    assert(".."@.len() == 2);
    reveal_strlit("settings.json");
    assert("settings.json"@.len() == 13);
    plain_names_go_below(style, "settings.json"@);
    reveal_strlit("store");
    assert("store"@.len() == 5);
    plain_names_go_below(style, "store"@);
    reveal_strlit("rufin-store.sqlite");
    assert("rufin-store.sqlite"@.len() == 18);
    plain_names_go_below(style, "rufin-store.sqlite"@);
    reveal_strlit("rufin-catalog.sqlite");
    assert("rufin-catalog.sqlite"@.len() == 20);
    plain_names_go_below(style, "rufin-catalog.sqlite"@);
    reveal_strlit("covers");
    assert("covers"@.len() == 6);
    plain_names_go_below(style, "covers"@);
    reveal_strlit("playback");
    assert("playback"@.len() == 8);
    plain_names_go_below(style, "playback"@);
    reveal_strlit("downloads");
    assert("downloads"@.len() == 9);
    plain_names_go_below(style, "downloads"@);
    reveal_strlit("releases.json");
    assert("releases.json"@.len() == 13);
    plain_names_go_below(style, "releases.json"@);
}

/// The directories of the player.
pub struct Paths {
    pub style: PathStyle,
    pub config: String,
    pub cache: String,
    pub data: String,
    pub state: String,
}

impl Paths {
    pub fn config_dir(&self) -> (result: String)
        ensures
            result@ == self.config@,
    {
        self.config.clone()
    }

    pub fn cache_dir(&self) -> (result: String)
        ensures
            result@ == self.cache@,
    {
        self.cache.clone()
    }

    pub fn data_dir(&self) -> (result: String)
        ensures
            result@ == self.data@,
    {
        self.data.clone()
    }

    pub fn state_dir(&self) -> (result: String)
        ensures
            result@ == self.state@,
    {
        self.state.clone()
    }

    pub fn settings_file(&self) -> (result: String)
        ensures
            result@ == self.style.joined(self.config@, "settings.json"@),
    {
        proof {
            own_names_go_below(self.style);
        }
        self.style.join(self.config.as_str(), "settings.json")
    }

    pub fn store_file(&self) -> (result: String)
        ensures
            result@ == self.style.joined(self.style.joined(self.data@, "store"@), "rufin-store.sqlite"@),
    {
        proof {
            own_names_go_below(self.style);
        }
        self.style.join(self.style.join(self.data.as_str(), "store").as_str(), "rufin-store.sqlite")
    }

    pub fn catalog_file(&self) -> (result: String)
        ensures
            result@ == self.style.joined(self.style.joined(self.cache@, "store"@), "rufin-catalog.sqlite"@),
    {
        proof {
            own_names_go_below(self.style);
        }
        self.style.join(self.style.join(self.cache.as_str(), "store").as_str(), "rufin-catalog.sqlite")
    }

    pub fn legacy_store_file(&self) -> (result: String)
        ensures
            result@ == self.style.joined(self.style.joined(self.cache@, "store"@), "rufin-store.sqlite"@),
    {
        proof {
            own_names_go_below(self.style);
        }
        self.style.join(self.style.join(self.cache.as_str(), "store").as_str(), "rufin-store.sqlite")
    }

    pub fn artwork_dir(&self) -> (result: String)
        ensures
            result@ == self.style.joined(self.cache@, "covers"@),
    {
        proof {
            own_names_go_below(self.style);
        }
        self.style.join(self.cache.as_str(), "covers")
    }

    pub fn playback_dir(&self) -> (result: String)
        ensures
            result@ == self.style.joined(self.cache@, "playback"@),
    {
        proof {
            own_names_go_below(self.style);
        }
        self.style.join(self.cache.as_str(), "playback")
    }

    pub fn downloads_dir(&self) -> (result: String)
        ensures
            result@ == self.style.joined(self.data@, "downloads"@),
    {
        proof {
            own_names_go_below(self.style);
        }
        self.style.join(self.data.as_str(), "downloads")
    }

    pub fn release_history_file(&self) -> (result: String)
        ensures
            result@ == self.style.joined(self.cache@, "releases.json"@),
    {
        proof {
            own_names_go_below(self.style);
        }
        self.style.join(self.cache.as_str(), "releases.json")
    }

    /// The directories that must exist before the player starts, in the order they are made.
    pub fn prepare(&self) -> (result: Vec<String>)
        ensures
            texts(result@) == seq![
                self.style.joined(self.data@, "store"@),
                self.style.joined(self.cache@, "covers"@),
                self.style.joined(self.cache@, "playback"@),
                self.style.joined(self.data@, "downloads"@),
                self.config@,
            ],
    {
        proof {
            own_names_go_below(self.style);
        }
        let mut list: Vec<String> = Vec::new();
        list.push(self.style.join(self.data.as_str(), "store"));
        list.push(self.artwork_dir());
        list.push(self.playback_dir());
        list.push(self.downloads_dir());
        list.push(self.config.clone());
        assert(texts(list@) =~= seq![
            self.style.joined(self.data@, "store"@),
            self.style.joined(self.cache@, "covers"@),
            self.style.joined(self.cache@, "playback"@),
            self.style.joined(self.data@, "downloads"@),
            self.config@,
        ]);
        list
    }
}

/// What is joined to a path stands below it: the path is kept as it is and the name follows.
pub proof fn joined_stays_below(style: PathStyle, base: Seq<char>, name: Seq<char>)
    requires
        !style.has_drive(name),
        !style.is_verbatim(base),
    ensures
        style.joined(base, name).take(base.len() as int) == base,
        style.joined(base, name).skip(style.joined(base, name).len() - name.len()) == name,
{
    let path = style.joined(base, name);
    assert(path.take(base.len() as int) =~= base);
    assert(path.skip(path.len() - name.len()) =~= name);
}

} // verus!
