//! The listing of installed packages: one line of `xbps-query -l` per
//! package, read into records and shown again.

use crate::style::{paint, painted, Paint};
use crate::text::{
    chars_of, decimal, find_first, find_last, lines, natural_text, next_line, split_first,
    split_last, text_of, trim, trimmed,
};
use vstd::prelude::*;
use vstd::string::StringExecFns;

verus! {

/// The state that the package database records for a package.
#[derive(Debug, Clone, Copy, PartialEq, Eq, Structural)]
pub enum PackageState {
    Installed,
    Unpacked,
    HalfRemoved,
    Unknown,
}

impl PackageState {
    /// The state that a two-letter code of the listing stands for.
    pub open spec fn of_code(code: Seq<char>) -> Option<PackageState> {
        if code == seq!['i', 'i'] {
            Some(PackageState::Installed)
        } else if code == seq!['u', 'u'] {
            Some(PackageState::Unpacked)
        } else if code == seq!['h', 'r'] {
            Some(PackageState::HalfRemoved)
        } else if code == seq!['?', '?'] {
            Some(PackageState::Unknown)
        } else {
            None
        }
    }

    /// The name under which the state is shown.
    pub open spec fn label_of(self) -> Seq<char> {
        match self {
            PackageState::Installed => "Installed"@,
            PackageState::Unpacked => "Unpacked"@,
            PackageState::HalfRemoved => "Half Removed"@,
            PackageState::Unknown => "Unknown"@,
        }
    }

    /// The state that `chars[from..to]` stands for, if it is a state code.
    fn decode_chars(chars: &Vec<char>, from: usize, to: usize) -> (state: Option<PackageState>)
        requires
            from <= to <= chars.len(),
        ensures
            state == Self::of_code(chars@.subrange(from as int, to as int)),
    {
        let ghost code = chars@.subrange(from as int, to as int);
        if to - from != 2 {
            assert(seq!['i', 'i'].len() == 2 && seq!['u', 'u'].len() == 2);
            assert(seq!['h', 'r'].len() == 2 && seq!['?', '?'].len() == 2);
            return None;
        }
        let a = chars[from];
        let b = chars[from + 1];
        assert(code == seq![a, b]);
        if a == 'i' && b == 'i' {
            Some(PackageState::Installed)
        } else if a == 'u' && b == 'u' {
            Some(PackageState::Unpacked)
        } else if a == 'h' && b == 'r' {
            Some(PackageState::HalfRemoved)
        } else if a == '?' && b == '?' {
            Some(PackageState::Unknown)
        } else {
            None
        }
    }

    /// The state that `code` stands for: `ii`, `uu`, `hr` and `??` are the
    /// codes, and nothing else is.
    pub fn decode(code: &str) -> (state: Option<PackageState>)
        ensures
            state == Self::of_code(code@),
    {
        let chars = chars_of(code);
        assert(chars@.subrange(0, chars.len() as int) == chars@);
        Self::decode_chars(&chars, 0, chars.len())
    }

    /// The name under which the state is shown.
    pub fn label(&self) -> (out: String)
        ensures
            out@ == self.label_of(),
    {
        match self {
            PackageState::Installed => String::from_str("Installed"),
            PackageState::Unpacked => String::from_str("Unpacked"),
            PackageState::HalfRemoved => String::from_str("Half Removed"),
            PackageState::Unknown => String::from_str("Unknown"),
        }
    }
}

/// One installed package, as the listing describes it.
#[derive(Debug, PartialEq, Eq)]
pub struct InstalledPackage {
    pub name: String,
    pub version: String,
    pub state: PackageState,
    pub description: String,
}

/// What an [`InstalledPackage`] holds, as plain text.
pub struct PackageView {
    pub name: Seq<char>,
    pub version: Seq<char>,
    pub state: PackageState,
    pub description: Seq<char>,
}

impl View for InstalledPackage {
    type V = PackageView;

    open spec fn view(&self) -> PackageView {
        PackageView {
            name: self.name@,
            version: self.version@,
            state: self.state,
            description: self.description@,
        }
    }
}

impl DeepView for InstalledPackage {
    type V = PackageView;

    open spec fn deep_view(&self) -> PackageView {
        self@
    }
}

/// The step at which reading a line of the listing fails.
#[derive(Debug, Clone, Copy, PartialEq, Eq, Structural)]
pub enum ParseStage {
    /// No space ends the state code.
    MissingState,
    /// The state code is none of the known ones.
    UnknownState,
    /// No space parts the name and version from the description.
    MissingDescription,
    /// No hyphen parts the name from the version.
    InvalidNameVersion,
}

impl ParseStage {
    /// What went wrong at this stage, in words.
    pub open spec fn reason_of(self) -> Seq<char> {
        match self {
            ParseStage::MissingState => "No state or name/version"@,
            ParseStage::UnknownState => "Unknown package state"@,
            ParseStage::MissingDescription => "No name/version or description"@,
            ParseStage::InvalidNameVersion => "Invalid name/version"@,
        }
    }

    /// What went wrong at this stage, in words.
    pub fn reason(&self) -> (out: String)
        ensures
            out@ == self.reason_of(),
    {
        match self {
            ParseStage::MissingState => String::from_str("No state or name/version"),
            ParseStage::UnknownState => String::from_str("Unknown package state"),
            ParseStage::MissingDescription => String::from_str("No name/version or description"),
            ParseStage::InvalidNameVersion => String::from_str("Invalid name/version"),
        }
    }
}

/// A line of the listing that could not be read, and why.
#[derive(Debug, PartialEq, Eq)]
pub struct ParseError {
    pub stage: ParseStage,
    pub line: String,
}

/// What a [`ParseError`] holds, as plain text.
pub struct ParseErrorView {
    pub stage: ParseStage,
    pub line: Seq<char>,
}

impl View for ParseError {
    type V = ParseErrorView;

    open spec fn view(&self) -> ParseErrorView {
        ParseErrorView { stage: self.stage, line: self.line@ }
    }
}

impl ParseError {
    /// The message for the user: the reason, a colon and the line.
    pub open spec fn message_of(self) -> Seq<char> {
        self.stage.reason_of() + ": "@ + self.line@
    }

    /// The message for the user.
    pub fn message(&self) -> (out: String)
        ensures
            out@ == self.message_of(),
    {
        let mut out = self.stage.reason();
        out.append(": ");
        out.append(self.line.as_str());
        out
    }
}

/// The package that one line of the listing describes. The line holds a state
/// code, a space, the name and the version joined by a hyphen, a space, and
/// the description. The name ends at the last hyphen before the description.
pub open spec fn parsed_line(line: Seq<char>) -> Result<PackageView, ParseStage> {
    match split_first(line, ' ') {
        None => Err(ParseStage::MissingState),
        Some((code, rest)) => match PackageState::of_code(code) {
            None => Err(ParseStage::UnknownState),
            Some(state) => match split_first(rest, ' ') {
                None => Err(ParseStage::MissingDescription),
                Some((name_version, description)) => match split_last(name_version, '-') {
                    None => Err(ParseStage::InvalidNameVersion),
                    Some((name, version)) => Ok(
                        PackageView { name, version, state, description: trimmed(description) },
                    ),
                },
            },
        },
    }
}

/// The packages that the lines describe, in the order of the lines. Empty
/// lines describe nothing. The first line that cannot be read fails the whole.
pub open spec fn parsed_lines(lines: Seq<Seq<char>>) -> Result<Seq<PackageView>, ParseErrorView>
    decreases lines.len(),
{
    if lines.len() == 0 {
        Ok(Seq::empty())
    } else {
        match parsed_lines(lines.drop_last()) {
            Err(e) => Err(e),
            Ok(found) => {
                let line = lines.last();
                if line.len() == 0 {
                    Ok(found)
                } else {
                    match parsed_line(line) {
                        Ok(package) => Ok(found.push(package)),
                        Err(stage) => Err(ParseErrorView { stage, line }),
                    }
                }
            },
        }
    }
}

/// The packages that the text of a listing describes.
pub open spec fn parsed(text: Seq<char>) -> Result<Seq<PackageView>, ParseErrorView> {
    parsed_lines(lines(text))
}

/// Once a line has failed, no line after it changes the outcome.
pub proof fn first_failure_stands(before: Seq<Seq<char>>, after: Seq<Seq<char>>)
    requires
        parsed_lines(before) is Err,
    ensures
        parsed_lines(before + after) == parsed_lines(before),
    decreases after.len(),
{
    if after.len() > 0 {
        first_failure_stands(before, after.drop_last());
        assert((before + after).drop_last() == before + after.drop_last());
    }
}

/// Reads the line `chars[from..to]`.
fn parse_line(chars: &Vec<char>, from: usize, to: usize) -> (out: Result<
    InstalledPackage,
    ParseStage,
>)
    requires
        from <= to <= chars.len(),
    ensures
        match out {
            Ok(package) => parsed_line(chars@.subrange(from as int, to as int)) == Ok::<
                PackageView,
                ParseStage,
            >(package@),
            Err(stage) => parsed_line(chars@.subrange(from as int, to as int)) == Err::<
                PackageView,
                ParseStage,
            >(stage),
        },
{
    let ghost line = chars@.subrange(from as int, to as int);
    let code_end = match find_first(chars, from, to, ' ') {
        None => { return Err(ParseStage::MissingState); },
        Some(at) => at,
    };
    assert(line.take(code_end - from) == chars@.subrange(from as int, code_end as int));
    assert(line.skip(code_end - from + 1) == chars@.subrange(code_end + 1, to as int));
    let ghost rest = chars@.subrange(code_end + 1, to as int);
    let state = match PackageState::decode_chars(chars, from, code_end) {
        None => { return Err(ParseStage::UnknownState); },
        Some(state) => state,
    };
    let name_version_end = match find_first(chars, code_end + 1, to, ' ') {
        None => { return Err(ParseStage::MissingDescription); },
        Some(at) => at,
    };
    assert(rest.take(name_version_end - (code_end + 1)) == chars@.subrange(
        code_end + 1,
        name_version_end as int,
    ));
    assert(rest.skip(name_version_end - (code_end + 1) + 1) == chars@.subrange(
        name_version_end + 1,
        to as int,
    ));
    let ghost name_version = chars@.subrange(code_end + 1, name_version_end as int);
    let name_end = match find_last(chars, code_end + 1, name_version_end, '-') {
        None => { return Err(ParseStage::InvalidNameVersion); },
        Some(at) => at,
    };
    assert(name_version.take(name_end - (code_end + 1)) == chars@.subrange(
        code_end + 1,
        name_end as int,
    ));
    assert(name_version.skip(name_end - (code_end + 1) + 1) == chars@.subrange(
        name_end + 1,
        name_version_end as int,
    ));
    let (description_start, description_end) = trim(chars, name_version_end + 1, to);
    Ok(
        InstalledPackage {
            name: text_of(chars, code_end + 1, name_end),
            version: text_of(chars, name_end + 1, name_version_end),
            state,
            description: text_of(chars, description_start, description_end),
        },
    )
}

/// Reads the listing of installed packages that `xbps-query -l` printed.
///
/// Gives the packages in the order of their lines, or the first line that does
/// not describe a package.
pub fn parse_installed(text: &str) -> (out: Result<Vec<InstalledPackage>, ParseError>)
    ensures
        match out {
            Ok(packages) => parsed(text@) == Ok::<Seq<PackageView>, ParseErrorView>(
                packages.deep_view(),
            ),
            Err(e) => parsed(text@) == Err::<Seq<PackageView>, ParseErrorView>(e@),
        },
{
    let chars = chars_of(text);
    let mut packages: Vec<InstalledPackage> = Vec::new();
    let ghost mut done: Seq<Seq<char>> = Seq::empty();
    let mut at: usize = 0;
    assert(chars@.skip(0) == chars@);
    assert(packages.deep_view() == Seq::<PackageView>::empty());
    while at < chars.len()
        invariant
            at <= chars.len(),
            chars@ == text@,
            lines(text@) == done + lines(chars@.skip(at as int)),
            parsed_lines(done) == Ok::<Seq<PackageView>, ParseErrorView>(packages.deep_view()),
        decreases chars.len() - at,
    {
        let (end, next) = next_line(&chars, at);
        let ghost line = chars@.subrange(at as int, end as int);
        let ghost after = lines(chars@.skip(next as int));
        assert(done + (seq![line] + after) == done.push(line) + after);
        assert(done.push(line).drop_last() == done);
        if end > at {
            match parse_line(&chars, at, end) {
                Ok(package) => {
                    let ghost found = packages.deep_view().push(package@);
                    packages.push(package);
                    assert(packages.deep_view() == found);
                },
                Err(stage) => {
                    proof {
                        first_failure_stands(done.push(line), after);
                    }
                    return Err(ParseError { stage, line: text_of(&chars, at, end) });
                },
            }
        }
        proof {
            done = done.push(line);
        }
        at = next;
    }
    Ok(packages)
}

/// Whether a line can be passed over or read: it is empty or describes a
/// package.
pub open spec fn readable(line: Seq<char>) -> bool {
    line.len() == 0 || parsed_line(line) is Ok
}

/// Reading keeps the order of the lines and stops at the first line that
/// cannot be read: where every line is readable, the packages are those of the
/// lines that are not empty, one for each and in their order; otherwise the
/// error names the first line that is not readable.
pub proof fn parsed_in_order(lines: Seq<Seq<char>>)
    ensures
        match parsed_lines(lines) {
            Ok(found) => {
                &&& forall|i: int| 0 <= i < lines.len() ==> readable(#[trigger] lines[i])
                &&& found == lines.filter(|l: Seq<char>| l.len() > 0).map_values(
                    |l: Seq<char>| parsed_line(l)->Ok_0,
                )
            },
            Err(e) => exists|i: int|
                {
                    &&& 0 <= i < lines.len()
                    &&& !readable(#[trigger] lines[i])
                    &&& forall|j: int| 0 <= j < i ==> readable(#[trigger] lines[j])
                    &&& e.line == lines[i]
                    &&& parsed_line(lines[i]) == Err::<PackageView, ParseStage>(e.stage)
                },
        },
    decreases lines.len(),
{
    if lines.len() > 0 {
        let front = lines.drop_last();
        parsed_in_order(front);
        assert(lines == front.push(lines.last()));
        Seq::lemma_filter_push(front, lines.last(), |l: Seq<char>| l.len() > 0);
        if let Err(e) = parsed_lines(front) {
            let first = choose|i: int|
                {
                    &&& 0 <= i < front.len()
                    &&& !readable(#[trigger] front[i])
                    &&& forall|j: int| 0 <= j < i ==> readable(#[trigger] front[j])
                    &&& e.line == front[i]
                    &&& parsed_line(front[i]) == Err::<PackageView, ParseStage>(e.stage)
                };
            assert(lines[first] == front[first]);
        }
    }
}

/// The line that shows one package: its tag, four spaces, then name, version
/// in round brackets, state in square brackets, a hyphen and the description.
pub open spec fn entry(
    tag: Seq<char>,
    name: Seq<char>,
    version: Seq<char>,
    state: Seq<char>,
    description: Seq<char>,
) -> Seq<char> {
    tag + "    "@ + name + " ("@ + version + ") ["@ + state + "] - "@ + description
}

/// The tag of the package at `index`: its ordinal, counted from one, in
/// square brackets.
pub open spec fn ordinal(index: int) -> Seq<char> {
    "["@ + decimal(index + 1) + "]"@
}

/// Whether `line` shows `package` as the one at `index`: the tag in bright
/// black, the name in blue, the version in green, the state in yellow.
pub open spec fn is_entry(line: Seq<char>, index: int, package: PackageView) -> bool {
    exists|tag: Seq<char>, name: Seq<char>, version: Seq<char>, state: Seq<char>|
        {
            &&& #[trigger] painted(tag, Paint::BrightBlack, ordinal(index))
            &&& #[trigger] painted(name, Paint::Blue, package.name)
            &&& #[trigger] painted(version, Paint::Green, package.version)
            &&& #[trigger] painted(state, Paint::Yellow, package.state.label_of())
            &&& line == entry(tag, name, version, state, package.description)
        }
}

/// Whether `lines` show `packages`, one line for each and in their order.
pub open spec fn is_listing(lines: Seq<Seq<char>>, packages: Seq<PackageView>) -> bool {
    &&& lines.len() == packages.len()
    &&& forall|i: int| 0 <= i < lines.len() ==> is_entry(#[trigger] lines[i], i, packages[i])
}

/// Puts the line of one package together from its parts as they are to be
/// printed.
pub fn entry_line(tag: &str, name: &str, version: &str, state: &str, description: &str) -> (out:
    String)
    ensures
        out@ == entry(tag@, name@, version@, state@, description@),
{
    let mut out = String::from_str(tag);
    out.append("    ");
    out.append(name);
    out.append(" (");
    out.append(version);
    out.append(") [");
    out.append(state);
    out.append("] - ");
    out.append(description);
    out
}

/// The lines that show the packages, numbered from one.
pub fn render_installed(packages: &Vec<InstalledPackage>) -> (out: Vec<String>)
    ensures
        is_listing(out.deep_view(), packages.deep_view()),
{
    let mut out: Vec<String> = Vec::new();
    let mut i: usize = 0;
    while i < packages.len()
        invariant
            i <= packages.len(),
            out.len() == i,
            forall|k: int|
                0 <= k < i ==> is_entry(#[trigger] out.deep_view()[k], k, packages.deep_view()[k]),
        decreases packages.len() - i,
    {
        let package = &packages[i];
        let mut number = String::from_str("[");
        number.append(natural_text((i + 1) as u64).as_str());
        number.append("]");
        let tag = paint(Paint::BrightBlack, number.as_str());
        let name = paint(Paint::Blue, package.name.as_str());
        let version = paint(Paint::Green, package.version.as_str());
        let label = package.state.label();
        let state = paint(Paint::Yellow, label.as_str());
        let line = entry_line(
            tag.as_str(),
            name.as_str(),
            version.as_str(),
            state.as_str(),
            package.description.as_str(),
        );
        let ghost before = out.deep_view();
        let ghost shown = line@;
        assert(is_entry(shown, i as int, package@)) by {
            assert(painted(tag@, Paint::BrightBlack, ordinal(i as int)));
            assert(painted(name@, Paint::Blue, package@.name));
            assert(painted(version@, Paint::Green, package@.version));
            assert(painted(state@, Paint::Yellow, package@.state.label_of()));
        }
        out.push(line);
        assert forall|k: int| 0 <= k < i + 1 implies is_entry(
            #[trigger] out.deep_view()[k],
            k,
            packages.deep_view()[k],
        ) by {
            if k < i {
                assert(out.deep_view()[k] == before[k]);
            }
        }
        i += 1;
    }
    out
}

} // verus!
