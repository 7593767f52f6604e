//! File-system paths as plain values.
//!
//! A path is held as the list of its parts together with the facts that only the host's own path
//! rules decide: how it is shown, whether it is absolute, whether it names a local place. The
//! lexical rules of the library (names, extensions, containment, equality) work on the parts.

use vstd::prelude::*;
use vstd::string::*;

use crate::text;

verus! {

/// The path conventions of a host.
#[derive(Clone, Copy, Debug, PartialEq, Eq, Structural)]
pub enum PathStyle {
    Unix,
    Windows,
}

#[derive(Clone, Debug, PartialEq, Eq)]
pub enum PathPart {
    /// A Windows drive, share or device prefix.
    Prefix(String),
    Root,
    Current,
    Parent,
    Normal(String),
    /// A name that is not valid Unicode, in the encoding of the host, with its extension where that
    /// is valid Unicode.
    Opaque(Vec<u8>, Option<String>),
}

#[derive(Clone, Debug, PartialEq, Eq)]
pub struct HostPath {
    pub style: PathStyle,
    /// The text that the path is shown as.
    pub shown: String,
    /// Whether `shown` is the path itself, not a lossy form of it.
    pub unicode: bool,
    pub absolute: bool,
    /// Why the path does not name an absolute place on a local volume, where it does not.
    pub local_fault: Option<String>,
    pub parts: Vec<PathPart>,
}

/// What a part of a path is, apart from its representation.
pub enum PartView {
    Prefix(Seq<char>),
    Root,
    Current,
    Parent,
    Normal(Seq<char>),
    Opaque(Seq<u8>, Option<Seq<char>>),
}

impl View for PathPart {
    type V = PartView;

    open spec fn view(&self) -> PartView {
        match self {
            PathPart::Prefix(name) => PartView::Prefix(name@),
            PathPart::Root => PartView::Root,
            PathPart::Current => PartView::Current,
            PathPart::Parent => PartView::Parent,
            PathPart::Normal(name) => PartView::Normal(name@),
            PathPart::Opaque(name, extension) => PartView::Opaque(name@, text::view_option(*extension)),
        }
    }
}

/// The views of a list of parts.
pub open spec fn part_views(parts: Seq<PathPart>) -> Seq<PartView> {
    parts.map_values(|part: PathPart| part@)
}

/// A part with the ASCII letters of its names in lower case.
pub open spec fn folded(part: PartView) -> PartView {
    match part {
        PartView::Prefix(name) => PartView::Prefix(text::lower(name)),
        PartView::Root => PartView::Root,
        PartView::Current => PartView::Current,
        PartView::Parent => PartView::Parent,
        PartView::Normal(name) => PartView::Normal(text::lower(name)),
        PartView::Opaque(name, extension) => PartView::Opaque(name, extension),
    }
}

/// Two parts are the same: exactly, or on Windows up to the case of ASCII letters.
pub open spec fn same_part(style: PathStyle, left: PartView, right: PartView) -> bool {
    match style {
        PathStyle::Unix => left == right,
        PathStyle::Windows => folded(left) == folded(right),
    }
}

/// The text of a drive, plain or verbatim.
pub open spec fn drive_prefix(name: Seq<char>) -> bool {
    ||| name.len() == 2 && text::is_ascii_letter(name[0]) && name[1] == ':'
    ||| name.len() == 6 && name[0] == '\\' && name[1] == '\\' && name[2] == '?' && name[3] == '\\'
        && text::is_ascii_letter(name[4]) && name[5] == ':'
}

/// A part with the letter of a Windows drive in lower case.
pub open spec fn drive_folded(style: PathStyle, part: PartView) -> PartView {
    match part {
        PartView::Prefix(name) => if style == PathStyle::Windows && drive_prefix(name) {
            PartView::Prefix(text::lower(name))
        } else {
            part
        },
        _ => part,
    }
}

/// Two lists of parts are equal, up to the case of the letter of a Windows drive.
pub open spec fn equal_parts(style: PathStyle, left: Seq<PartView>, right: Seq<PartView>) -> bool {
    &&& left.len() == right.len()
    &&& forall|i: int|
        0 <= i < left.len() ==> drive_folded(style, #[trigger] left[i]) == drive_folded(
            style,
            right[i],
        )
}

/// The parts of `inner` begin with the parts of `outer`.
pub open spec fn parts_within(
    style: PathStyle,
    inner: Seq<PartView>,
    outer: Seq<PartView>,
) -> bool {
    &&& outer.len() <= inner.len()
    &&& forall|i: int| 0 <= i < outer.len() ==> same_part(style, #[trigger] inner[i], outer[i])
}

pub open spec fn same_parts(style: PathStyle, left: Seq<PartView>, right: Seq<PartView>) -> bool {
    left.len() == right.len() && parts_within(style, left, right)
}

/// The last part, where it is a plain name.
pub open spec fn name_of(parts: Seq<PartView>) -> Option<Seq<char>> {
    if parts.len() > 0 {
        match parts.last() {
            PartView::Normal(name) => Some(name),
            _ => None,
        }
    } else {
        None
    }
}

/// What follows the last dot of a name, where something precedes that dot.
pub open spec fn extension_of_name(name: Seq<char>) -> Option<Seq<char>> {
    let dot = text::last_index(name, '.');
    if dot > 0 {
        Some(name.skip(dot + 1))
    } else {
        None
    }
}

/// The extension of the last part, where it is a name with one.
pub open spec fn extension_of(parts: Seq<PartView>) -> Option<Seq<char>> {
    if parts.len() > 0 {
        match parts.last() {
            PartView::Normal(name) => extension_of_name(name),
            PartView::Opaque(_, extension) => extension,
            _ => None,
        }
    } else {
        None
    }
}

/// All parts but the last, where the last is not the root or a prefix.
pub open spec fn parent_of(parts: Seq<PartView>) -> Option<Seq<PartView>> {
    if parts.len() > 0 && !(parts.last() is Root) && !(parts.last() is Prefix) {
        Some(parts.drop_last())
    } else {
        None
    }
}

/// The separator between names.
pub open spec fn separator(style: PathStyle) -> char {
    match style {
        PathStyle::Unix => '/',
        PathStyle::Windows => '\\',
    }
}

pub open spec fn is_separator(style: PathStyle, c: char) -> bool {
    c == '/' || (style == PathStyle::Windows && c == '\\')
}

/// The text is a Windows drive and nothing else: what follows it directly is relative to that drive.
pub open spec fn bare_drive(style: PathStyle, shown: Seq<char>) -> bool {
    style == PathStyle::Windows && shown.len() == 2 && text::is_ascii_letter(shown[0]) && shown[1]
        == ':'
}

/// The text of a path with one more name behind it.
pub open spec fn joined_text(style: PathStyle, shown: Seq<char>, name: Seq<char>) -> Seq<char> {
    if shown.len() == 0 || is_separator(style, shown.last()) || bare_drive(style, shown) {
        shown + name
    } else {
        shown.push(separator(style)) + name
    }
}

impl HostPath {
    /// The parts of the path.
    pub open spec fn spec_parts(&self) -> Seq<PartView> {
        part_views(self.parts@)
    }

    /// `self` lies at or below `outer`.
    pub open spec fn within(&self, outer: &HostPath) -> bool {
        parts_within(self.style, self.spec_parts(), outer.spec_parts())
    }

    /// `self` and `other` are the same path.
    pub open spec fn same(&self, other: &HostPath) -> bool {
        same_parts(self.style, self.spec_parts(), other.spec_parts())
    }

    /// `self` and `other` are equal as paths of their host.
    pub open spec fn equals(&self, other: &HostPath) -> bool {
        equal_parts(self.style, self.spec_parts(), other.spec_parts())
    }

    /// `self` is `other` in every respect: its text, its parts and what the host says of it.
    pub open spec fn copies(&self, other: &HostPath) -> bool {
        &&& self.style == other.style
        &&& self.shown@ == other.shown@
        &&& self.unicode == other.unicode
        &&& self.absolute == other.absolute
        &&& self.local_fault == other.local_fault
        &&& self.spec_parts() == other.spec_parts()
    }

    /// `self` is `base` with the plain name `name` behind it.
    pub open spec fn extends(&self, base: &HostPath, name: Seq<char>) -> bool {
        &&& self.style == base.style
        &&& self.shown@ == joined_text(base.style, base.shown@, name)
        &&& self.unicode == base.unicode
        &&& self.absolute == base.absolute
        &&& self.local_fault == base.local_fault
        &&& self.spec_parts() == base.spec_parts().push(PartView::Normal(name))
    }

    /// `self` is `base` with the plain names `first` and `second` behind it.
    pub open spec fn extends_twice(&self, base: &HostPath, first: Seq<char>, second: Seq<char>) -> bool {
        &&& self.style == base.style
        &&& self.shown@ == joined_text(
            base.style,
            joined_text(base.style, base.shown@, first),
            second,
        )
        &&& self.unicode == base.unicode
        &&& self.absolute == base.absolute
        &&& self.local_fault == base.local_fault
        &&& self.spec_parts() == base.spec_parts().push(PartView::Normal(first)).push(
            PartView::Normal(second),
        )
    }

    pub fn is_absolute(&self) -> (yes: bool)
        ensures
            yes == self.absolute,
    {
        self.absolute
    }

    /// The last part, where it is a plain name.
    pub fn file_name(&self) -> (name: Option<String>)
        ensures
            match name {
                Some(found) => name_of(self.spec_parts()) == Some(found@),
                None => name_of(self.spec_parts()) is None,
            },
    {
        if self.parts.len() == 0 {
            return None;
        }
        match &self.parts[self.parts.len() - 1] {
            PathPart::Normal(name) => Some(name.clone()),
            _ => None,
        }
    }

    /// What follows the last dot of the file name.
    pub fn extension(&self) -> (extension: Option<String>)
        ensures
            text::view_option(extension) == extension_of(self.spec_parts()),
    {
        if self.parts.len() == 0 {
            return None;
        }
        match &self.parts[self.parts.len() - 1] {
            PathPart::Opaque(_, extension) => text::clone_option(extension),
            PathPart::Normal(name) => {
                let chars = text::chars_of(name.as_str());
                let count: usize = chars.len();
                match text::find_last(&chars, '.') {
                    Some(dot) => {
                        if dot > 0 {
                            let tail = text::string_of(&chars, dot + 1, count);
                            proof {
                                assert(tail@ =~= name@.skip(dot + 1));
                            }
                            Some(tail)
                        } else {
                            None
                        }
                    },
                    None => None,
                }
            },
            _ => None,
        }
    }

    /// Whether the file name is `name`.
    pub fn is_named(&self, name: &str) -> (yes: bool)
        ensures
            yes == (name_of(self.spec_parts()) == Some(name@)),
    {
        match self.file_name() {
            Some(found) => text::same_text(found.as_str(), name),
            None => false,
        }
    }

    /// Whether the extension of the file name is `extension`, up to the case of ASCII letters.
    pub fn has_extension(&self, extension: &str) -> (yes: bool)
        ensures
            yes == has_extension_spec(self.spec_parts(), extension@),
    {
        match self.extension() {
            Some(found) => text::eq_ignoring_case(found.as_str(), extension),
            None => false,
        }
    }

    /// Whether some part is the parent directory.
    pub fn climbs(&self) -> (yes: bool)
        ensures
            yes == (exists|i: int| 0 <= i < self.parts@.len() && (#[trigger] self.parts@[i]) is Parent),
    {
        let mut i: usize = 0;
        while i < self.parts.len()
            invariant
                i <= self.parts@.len(),
                forall|j: int| 0 <= j < i ==> !((#[trigger] self.parts@[j]) is Parent),
            decreases self.parts@.len() - i,
        {
            match &self.parts[i] {
                PathPart::Parent => {
                    return true;
                },
                _ => {},
            }
            i = i + 1;
        }
        false
    }

    /// Whether the path lies at or below `outer`.
    pub fn is_within(&self, outer: &HostPath) -> (yes: bool)
        ensures
            yes == self.within(outer),
    {
        first_parts_match(self.style, &self.parts, &outer.parts, outer.parts.len())
    }

    /// Whether both are the same path.
    pub fn is_same(&self, other: &HostPath) -> (yes: bool)
        ensures
            yes == self.same(other),
    {
        self.parts.len() == other.parts.len() && first_parts_match(
            self.style,
            &self.parts,
            &other.parts,
            other.parts.len(),
        )
    }

    /// Whether both are equal as paths of their host.
    pub fn is_equal(&self, other: &HostPath) -> (yes: bool)
        ensures
            yes == self.equals(other),
    {
        if self.parts.len() != other.parts.len() {
            return false;
        }
        let mut i: usize = 0;
        while i < self.parts.len()
            invariant
                i <= self.parts@.len(),
                self.parts@.len() == other.parts@.len(),
                forall|j: int|
                    0 <= j < i ==> drive_folded(self.style, #[trigger] self.spec_parts()[j])
                        == drive_folded(self.style, other.spec_parts()[j]),
            decreases self.parts@.len() - i,
        {
            if !parts_equal(self.style, &self.parts[i], &other.parts[i]) {
                proof {
                    assert(drive_folded(self.style, self.spec_parts()[i as int]) != drive_folded(
                        self.style,
                        other.spec_parts()[i as int],
                    ));
                }
                return false;
            }
            i = i + 1;
        }
        true
    }

    /// Whether the path has a part that can be left out at its end.
    pub fn has_parent(&self) -> (yes: bool)
        ensures
            yes == (parent_of(self.spec_parts()) is Some),
    {
        if self.parts.len() == 0 {
            return false;
        }
        match &self.parts[self.parts.len() - 1] {
            PathPart::Root => false,
            PathPart::Prefix(_) => false,
            _ => true,
        }
    }

    /// Whether the path without its last part is `directory`.
    pub fn is_child_of(&self, directory: &HostPath) -> (yes: bool)
        ensures
            yes == (parent_of(self.spec_parts()) matches Some(parent) && same_parts(
                self.style,
                parent,
                directory.spec_parts(),
            )),
    {
        if self.parts.len() == 0 {
            return false;
        }
        let last: usize = self.parts.len() - 1;
        match &self.parts[last] {
            PathPart::Root => {
                return false;
            },
            PathPart::Prefix(_) => {
                return false;
            },
            _ => {},
        }
        proof {
            assert(self.spec_parts().drop_last() =~= part_views(self.parts@.drop_last()));
        }
        if last != directory.parts.len() {
            return false;
        }
        let matches = first_parts_match(self.style, &self.parts, &directory.parts, directory.parts.len());
        proof {
            let parent = self.spec_parts().drop_last();
            assert forall|i: int| 0 <= i < parent.len() implies parent[i] == self.spec_parts()[i] by {}
            if matches {
                assert(parts_within(self.style, parent, directory.spec_parts()));
            } else if parts_within(self.style, parent, directory.spec_parts()) {
                assert forall|i: int| 0 <= i < directory.spec_parts().len() implies same_part(
                    self.style,
                    #[trigger] self.spec_parts()[i],
                    directory.spec_parts()[i],
                ) by {
                    assert(parent[i] == self.spec_parts()[i]);
                }
            }
        }
        matches
    }

    /// A copy of the path.
    pub fn duplicate(&self) -> (copy: HostPath)
        ensures
            copy.copies(self),
    {
        HostPath {
            style: self.style,
            shown: self.shown.clone(),
            unicode: self.unicode,
            absolute: self.absolute,
            local_fault: text::clone_option(&self.local_fault),
            parts: clone_parts(&self.parts),
        }
    }

    /// The path with the plain name `name` behind it.
    pub fn join(&self, name: &str) -> (joined: HostPath)
        ensures
            joined.extends(self, name@),
    {
        let mut joined = self.duplicate();
        append_name(self.style, &mut joined.shown, name);
        let ghost before = joined.parts@;
        joined.parts.push(PathPart::Normal(name.to_owned()));
        proof {
            assert(part_views(joined.parts@) =~= part_views(before).push(PartView::Normal(name@)));
        }
        joined
    }

    /// The path that `shown` denotes under the rules of the host that this code runs on.
    /// Those rules are the standard library's: nothing is said here of the parts.
    pub fn parse(shown: &str) -> (path: HostPath)
        ensures
            path.shown@ == shown@,
            path.unicode,
            path.local_fault is None <==> path.absolute,
    {
        let absolute = std_is_absolute(shown);
        let style = if std_main_separator() == '\\' {
            PathStyle::Windows
        } else {
            PathStyle::Unix
        };
        HostPath {
            style,
            shown: shown.to_owned(),
            unicode: true,
            absolute,
            local_fault: if absolute {
                None
            } else {
                Some("path is not absolute".to_owned())
            },
            parts: std_parts(shown),
        }
    }
}

/// Both are missing, or `copy` is the other path in every respect.
pub open spec fn copies_option(copy: Option<HostPath>, path: Option<HostPath>) -> bool {
    match (copy, path) {
        (Some(left), Some(right)) => left.copies(&right),
        (None, None) => true,
        _ => false,
    }
}

/// A copy of the path, where there is one.
pub fn duplicate_option(path: &Option<HostPath>) -> (copy: Option<HostPath>)
    ensures
        copies_option(copy, *path),
{
    match path {
        Some(inner) => Some(inner.duplicate()),
        None => None,
    }
}

pub open spec fn has_extension_spec(parts: Seq<PartView>, extension: Seq<char>) -> bool {
    match extension_of(parts) {
        Some(found) => text::same_ignoring_case(found, extension),
        None => false,
    }
}

/// `Path::is_absolute`. Its answer rests on the path rules of the host.
#[verifier::external_body]
fn std_is_absolute(shown: &str) -> bool {
    std::path::Path::new(shown).is_absolute()
}

/// `std::path::MAIN_SEPARATOR`, which the host decides.
#[verifier::external_body]
fn std_main_separator() -> char {
    std::path::MAIN_SEPARATOR
}

/// `Path::components`, each component as a part. The split rests on the path rules of the host.
#[verifier::external_body]
fn std_parts(shown: &str) -> Vec<PathPart> {
    let mut parts: Vec<PathPart> = Vec::new();
    for component in std::path::Path::new(shown).components() {
        let name = component.as_os_str().to_string_lossy().into_owned();
        parts.push(match component {
            std::path::Component::Prefix(_) => PathPart::Prefix(name),
            std::path::Component::RootDir => PathPart::Root,
            std::path::Component::CurDir => PathPart::Current,
            std::path::Component::ParentDir => PathPart::Parent,
            std::path::Component::Normal(_) => PathPart::Normal(name),
        });
    }
    parts
}

fn same_bytes(left: &Vec<u8>, right: &Vec<u8>) -> (same: bool)
    ensures
        same == (left@ == right@),
{
    if left.len() != right.len() {
        return false;
    }
    let mut i: usize = 0;
    while i < left.len()
        invariant
            i <= left@.len(),
            left@.len() == right@.len(),
            forall|j: int| 0 <= j < i ==> left@[j] == right@[j],
        decreases left@.len() - i,
    {
        if left[i] != right[i] {
            return false;
        }
        i = i + 1;
    }
    proof {
        assert(left@ =~= right@);
    }
    true
}

fn clone_bytes(bytes: &Vec<u8>) -> (copy: Vec<u8>)
    ensures
        copy@ == bytes@,
{
    let mut copy: Vec<u8> = Vec::new();
    let mut i: usize = 0;
    while i < bytes.len()
        invariant
            i <= bytes@.len(),
            copy@ == bytes@.take(i as int),
        decreases bytes@.len() - i,
    {
        copy.push(bytes[i]);
        proof {
            assert(copy@ =~= bytes@.take(i + 1));
        }
        i = i + 1;
    }
    proof {
        assert(copy@ =~= bytes@);
    }
    copy
}

fn clone_parts(parts: &Vec<PathPart>) -> (copy: Vec<PathPart>)
    ensures
        part_views(copy@) == part_views(parts@),
{
    let mut copy: Vec<PathPart> = Vec::new();
    let mut i: usize = 0;
    while i < parts.len()
        invariant
            i <= parts@.len(),
            part_views(copy@) == part_views(parts@).take(i as int),
        decreases parts@.len() - i,
    {
        let part = match &parts[i] {
            PathPart::Prefix(name) => PathPart::Prefix(name.clone()),
            PathPart::Root => PathPart::Root,
            PathPart::Current => PathPart::Current,
            PathPart::Parent => PathPart::Parent,
            PathPart::Normal(name) => PathPart::Normal(name.clone()),
            PathPart::Opaque(name, extension) => PathPart::Opaque(
                clone_bytes(name),
                text::clone_option(extension),
            ),
        };
        let ghost before = copy@;
        copy.push(part);
        proof {
            assert(part_views(copy@) =~= part_views(before).push(part@));
            assert(part_views(copy@) =~= part_views(parts@).take(i + 1));
        }
        i = i + 1;
    }
    proof {
        assert(part_views(parts@).take(i as int) =~= part_views(parts@));
    }
    copy
}

fn parts_match(style: PathStyle, left: &PathPart, right: &PathPart) -> (same: bool)
    ensures
        same == same_part(style, left@, right@),
{
    match (left, right) {
        (PathPart::Root, PathPart::Root) => true,
        (PathPart::Current, PathPart::Current) => true,
        (PathPart::Parent, PathPart::Parent) => true,
        (PathPart::Prefix(a), PathPart::Prefix(b)) => names_match(style, a.as_str(), b.as_str()),
        (PathPart::Normal(a), PathPart::Normal(b)) => names_match(style, a.as_str(), b.as_str()),
        (PathPart::Opaque(a, x), PathPart::Opaque(b, y)) => same_bytes(a, b) && text::same_option(x, y),
        _ => false,
    }
}

fn is_letter(c: char) -> (yes: bool)
    ensures
        yes == text::is_ascii_letter(c),
{
    ('a' <= c && c <= 'z') || ('A' <= c && c <= 'Z')
}

/// A drive is a drive in lower case too.
proof fn lemma_folded_drives(name: Seq<char>)
    requires
        drive_prefix(name),
    ensures
        drive_prefix(text::lower(name)),
{
    let folded = text::lower(name);
    assert(folded.len() == name.len());
    assert forall|i: int| 0 <= i < name.len() implies folded[i] == text::ascii_lower(name[i]) by {}
    if name.len() == 2 {
        assert(text::is_ascii_letter(text::ascii_lower(name[0])));
        assert(folded[1] == ':');
    } else {
        assert(text::is_ascii_letter(text::ascii_lower(name[4])));
        assert(folded[0] == '\\' && folded[1] == '\\' && folded[2] == '?' && folded[3] == '\\');
        assert(folded[5] == ':');
    }
}

fn is_drive_prefix(name: &str) -> (yes: bool)
    ensures
        yes == drive_prefix(name@),
{
    let chars = text::chars_of(name);
    if chars.len() == 2 {
        is_letter(chars[0]) && chars[1] == ':'
    } else {
        chars.len() == 6 && chars[0] == '\\' && chars[1] == '\\' && chars[2] == '?' && chars[3]
            == '\\' && is_letter(chars[4]) && chars[5] == ':'
    }
}

fn parts_equal(style: PathStyle, left: &PathPart, right: &PathPart) -> (same: bool)
    ensures
        same == (drive_folded(style, left@) == drive_folded(style, right@)),
{
    match (left, right) {
        (PathPart::Prefix(a), PathPart::Prefix(b)) => {
            let folds = style == PathStyle::Windows;
            let left_drive = folds && is_drive_prefix(a.as_str());
            let right_drive = folds && is_drive_prefix(b.as_str());
            if left_drive && right_drive {
                text::eq_ignoring_case(a.as_str(), b.as_str())
            } else {
                proof {
                    if left_drive {
                        lemma_folded_drives(a@);
                    }
                    if right_drive {
                        lemma_folded_drives(b@);
                    }
                }
                text::same_text(a.as_str(), b.as_str())
            }
        },
        _ => parts_match(PathStyle::Unix, left, right),
    }
}

fn names_match(style: PathStyle, left: &str, right: &str) -> (same: bool)
    ensures
        same == match style {
            PathStyle::Unix => left@ == right@,
            PathStyle::Windows => text::same_ignoring_case(left@, right@),
        },
{
    match style {
        PathStyle::Unix => text::same_text(left, right),
        PathStyle::Windows => text::eq_ignoring_case(left, right),
    }
}

fn first_parts_match(
    style: PathStyle,
    inner: &Vec<PathPart>,
    outer: &Vec<PathPart>,
    count: usize,
) -> (yes: bool)
    requires
        count == outer@.len(),
    ensures
        yes == parts_within(style, part_views(inner@), part_views(outer@)),
{
    if outer.len() > inner.len() {
        return false;
    }
    let mut i: usize = 0;
    while i < count
        invariant
            i <= count,
            count == outer@.len(),
            outer@.len() <= inner@.len(),
            forall|j: int|
                0 <= j < i ==> same_part(
                    style,
                    #[trigger] part_views(inner@)[j],
                    part_views(outer@)[j],
                ),
        decreases count - i,
    {
        if !parts_match(style, &inner[i], &outer[i]) {
            proof {
                assert(!same_part(style, part_views(inner@)[i as int], part_views(outer@)[i as int]));
            }
            return false;
        }
        i = i + 1;
    }
    true
}

/// A path that extends `base` by a name lies within it, is named so and is its child.
pub proof fn lemma_extension(path: &HostPath, base: &HostPath, name: Seq<char>)
    requires
        path.extends(base, name),
    ensures
        path.within(base),
        name_of(path.spec_parts()) == Some(name),
        parent_of(path.spec_parts()) == Some(base.spec_parts()),
{
    assert(path.spec_parts().drop_last() =~= base.spec_parts());
}

/// A path text without the separators and the current-directory names at its end.
pub open spec fn trimmed_end(style: PathStyle, shown: Seq<char>) -> Seq<char>
    decreases shown.len(),
{
    if shown.len() > 1 && is_separator(style, shown.last()) && !bare_drive(
        style,
        shown.drop_last(),
    ) {
        trimmed_end(style, shown.drop_last())
    } else if shown.len() > 1 && shown.last() == '.' && is_separator(style, shown[shown.len() - 2]) {
        trimmed_end(style, shown.drop_last())
    } else {
        shown
    }
}

/// A path text without the name at its end. A drive is no part of a name.
pub open spec fn without_name(style: PathStyle, shown: Seq<char>) -> Seq<char>
    decreases shown.len(),
{
    if shown.len() > 0 && !is_separator(style, shown.last()) && !bare_drive(style, shown) {
        without_name(style, shown.drop_last())
    } else {
        shown
    }
}

/// The text of the directory that a path text names an entry of.
pub open spec fn directory_text(style: PathStyle, shown: Seq<char>) -> Seq<char> {
    trimmed_end(style, without_name(style, trimmed_end(style, shown)))
}

fn char_is_separator(style: PathStyle, c: char) -> (yes: bool)
    ensures
        yes == is_separator(style, c),
{
    c == '/' || (style == PathStyle::Windows && c == '\\')
}

/// Whether the first `end` characters are a Windows drive and nothing else.
fn drive_ends_at(style: PathStyle, chars: &Vec<char>, end: usize) -> (yes: bool)
    requires
        end <= chars@.len(),
    ensures
        yes == bare_drive(style, chars@.take(end as int)),
{
    style == PathStyle::Windows && end == 2 && is_letter(chars[0]) && chars[1]
        == ':'
}

fn trim_end_at(style: PathStyle, chars: &Vec<char>, from: usize) -> (end: usize)
    requires
        from <= chars@.len(),
    ensures
        end <= from,
        chars@.take(end as int) == trimmed_end(style, chars@.take(from as int)),
{
    let mut end: usize = from;
    while end > 1 && ((char_is_separator(style, chars[end - 1]) && !drive_ends_at(
        style,
        chars,
        end - 1,
    )) || (chars[end - 1] == '.' && char_is_separator(style, chars[end - 2])))
        invariant
            end <= from <= chars@.len(),
            trimmed_end(style, chars@.take(end as int)) == trimmed_end(style, chars@.take(from as int)),
        decreases end,
    {
        proof {
            assert(chars@.take(end as int).drop_last() =~= chars@.take(end - 1));
        }
        end = end - 1;
    }
    proof {
        if end > 1 {
            assert(chars@.take(end as int).drop_last() =~= chars@.take(end - 1));
        }
    }
    end
}

/// Puts a name behind the text of a path.
fn append_name(style: PathStyle, shown: &mut String, name: &str)
    ensures
        final(shown)@ == joined_text(style, old(shown)@, name@),
{
    let chars = text::chars_of(shown.as_str());
    let count: usize = chars.len();
    proof {
        assert(chars@.take(count as int) =~= shown@);
    }
    if count > 0 && !char_is_separator(style, chars[count - 1]) && !drive_ends_at(
        style,
        &chars,
        count,
    ) {
        match style {
            PathStyle::Unix => {
                shown.push('/');
            },
            PathStyle::Windows => {
                shown.push('\\');
            },
        }
    }
    shown.append(name);
}

/// The text of the path with another name in place of its own.
pub fn name_beside(path: &HostPath, name: &str) -> (shown: String)
    ensures
        shown@ == joined_text(path.style, directory_text(path.style, path.shown@), name@),
{
    let mut shown = directory_of(path);
    append_name(path.style, &mut shown, name);
    shown
}

/// The text of the directory that the path names an entry of.
pub fn directory_of(path: &HostPath) -> (directory: String)
    ensures
        directory@ == directory_text(path.style, path.shown@),
{
    let chars = text::chars_of(path.shown.as_str());
    let count: usize = chars.len();
    proof {
        assert(chars@.take(count as int) =~= path.shown@);
    }
    let trimmed: usize = trim_end_at(path.style, &chars, count);
    let mut end: usize = trimmed;
    while end > 0 && !char_is_separator(path.style, chars[end - 1]) && !drive_ends_at(
        path.style,
        &chars,
        end,
    )
        invariant
            end <= trimmed <= chars@.len(),
            without_name(path.style, chars@.take(end as int)) == without_name(
                path.style,
                chars@.take(trimmed as int),
            ),
        decreases end,
    {
        proof {
            assert(chars@.take(end as int).drop_last() =~= chars@.take(end - 1));
        }
        end = end - 1;
    }
    let last: usize = trim_end_at(path.style, &chars, end);
    let directory = text::string_of(&chars, 0, last);
    proof {
        assert(directory@ =~= chars@.take(last as int));
    }
    directory
}

/// Names are told apart by the case of their letters on a Unix host and not on a Windows one.
pub proof fn names_are_compared_as_the_host_does(left: Seq<char>, right: Seq<char>)
    ensures
        same_part(PathStyle::Unix, PartView::Normal(left), PartView::Normal(right)) <==> left == right,
        same_part(PathStyle::Windows, PartView::Normal(left), PartView::Normal(right))
            <==> text::lower(left) == text::lower(right),
        same_part(PathStyle::Windows, PartView::Prefix(left), PartView::Prefix(right))
            <==> text::lower(left) == text::lower(right),
{
}

/// A path lies at or below another exactly where it begins with the other's parts.
pub proof fn paths_lie_below_their_beginnings(
    style: PathStyle,
    outer: Seq<PartView>,
    rest: Seq<PartView>,
    inner: Seq<PartView>,
)
    ensures
        parts_within(style, outer + rest, outer),
        same_parts(style, outer + rest, outer) <==> rest.len() == 0,
        parts_within(style, inner, outer) ==> inner.len() >= outer.len() && same_parts(
            style,
            inner.take(outer.len() as int),
            outer,
        ),
        inner.len() < outer.len() ==> !parts_within(style, inner, outer),
{
}

/// The extension of a name is what follows its last dot, unless that dot begins the name.
pub proof fn extensions_follow_the_last_dot(stem: Seq<char>, extension: Seq<char>)
    requires
        forall|i: int| 0 <= i < extension.len() ==> #[trigger] extension[i] != '.',
    ensures
        stem.len() > 0 ==> extension_of_name(stem.push('.') + extension) == Some(extension),
        stem.len() == 0 ==> extension_of_name(stem.push('.') + extension) is None,
        extension_of_name(extension) is None,
{
    lemma_last_dot(stem.push('.'), extension);
    lemma_last_dot(Seq::empty(), extension);
    assert(Seq::<char>::empty() + extension =~= extension);
    assert(text::last_index(stem.push('.'), '.') == stem.len());
    assert((stem.push('.') + extension).skip(stem.len() as int + 1) =~= extension);
}

proof fn lemma_last_dot(head: Seq<char>, tail: Seq<char>)
    requires
        forall|i: int| 0 <= i < tail.len() ==> #[trigger] tail[i] != '.',
    ensures
        text::last_index(head + tail, '.') == text::last_index(head, '.'),
    decreases tail.len(),
{
    if tail.len() == 0 {
        assert(head + tail =~= head);
    } else {
        assert((head + tail).drop_last() =~= head + tail.drop_last());
        assert((head + tail).last() == tail.last());
        lemma_last_dot(head, tail.drop_last());
    }
}

/// The directory of an entry is what the name of the entry was joined to.
pub proof fn entries_lie_in_their_directory(style: PathStyle, shown: Seq<char>, name: Seq<char>)
    requires
        shown.len() > 0,
        !is_separator(style, shown.last()),
        shown.last() != '.',
        !bare_drive(style, shown),
        name.len() > 0,
        name[0] != '.',
        forall|i: int| 0 <= i < name.len() ==> !is_separator(style, #[trigger] name[i]),
    ensures
        joined_text(style, shown, name) == shown.push(if style == PathStyle::Windows {
            '\\'
        } else {
            '/'
        }) + name,
        directory_text(style, joined_text(style, shown, name)) == shown,
{
    let base = shown.push(separator(style));
    let whole = base + name;
    assert(whole.last() == name.last());
    assert(!is_separator(style, whole.last())) by {
        assert(!is_separator(style, name[name.len() - 1]));
    }
    if whole.last() == '.' {
        assert(name.len() > 1);
        assert(whole[whole.len() - 2] == name[name.len() - 2]);
    }
    assert(trimmed_end(style, whole) == whole);
    lemma_without_name(style, base, name);
    assert(base.drop_last() =~= shown);
    assert(trimmed_end(style, base) == trimmed_end(style, shown));
    assert(trimmed_end(style, shown) == shown);
}

proof fn lemma_without_name(style: PathStyle, base: Seq<char>, name: Seq<char>)
    requires
        base.len() > 1,
        is_separator(style, base.last()),
        forall|i: int| 0 <= i < name.len() ==> !is_separator(style, #[trigger] name[i]),
    ensures
        without_name(style, base + name) == base,
    decreases name.len(),
{
    if name.len() == 0 {
        assert(base + name =~= base);
    } else {
        assert((base + name).last() == name[name.len() - 1]);
        assert((base + name).drop_last() =~= base + name.drop_last());
        lemma_without_name(style, base, name.drop_last());
    }
}

} // verus!
