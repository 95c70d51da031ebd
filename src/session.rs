use vstd::prelude::*;
use vstd::string::*;

verus! {

/// A character of a name: an ASCII letter or digit, or an underscore.
pub open spec fn is_word_char(c: char) -> bool {
    ('a' <= c && c <= 'z') || ('A' <= c && c <= 'Z') || ('0' <= c && c <= '9') || c == '_'
}

/// ASCII white space.
pub open spec fn is_space_char(c: char) -> bool {
    c == ' ' || c == '\t' || c == '\n' || c == '\r' || c == '\x0B' || c == '\x0C'
}

/// Where the run of name characters that starts at `i` ends.
pub open spec fn word_end(s: Seq<char>, i: int) -> int
    decreases s.len() - i,
{
    if 0 <= i < s.len() && is_word_char(s[i]) {
        word_end(s, i + 1)
    } else {
        i
    }
}

/// Where the run of white space that starts at `i` ends.
pub open spec fn space_end(s: Seq<char>, i: int) -> int
    decreases s.len() - i,
{
    if 0 <= i < s.len() && is_space_char(s[i]) {
        space_end(s, i + 1)
    } else {
        i
    }
}

/// Where the run of blanks that starts at `i` ends.
pub open spec fn blank_end(s: Seq<char>, i: int) -> int
    decreases s.len() - i,
{
    if 0 <= i < s.len() && s[i] == ' ' {
        blank_end(s, i + 1)
    } else {
        i
    }
}

pub open spec fn no_newline(s: Seq<char>) -> bool {
    !s.contains('\n')
}

/// `s` as `name := expression`: a name, optional white space, `:=`, and the rest
/// of the line.
pub open spec fn value_split(s: Seq<char>) -> Option<(Seq<char>, Seq<char>)> {
    let w = word_end(s, 0);
    let p = space_end(s, w);
    if w > 0 && p + 2 <= s.len() && s[p] == ':' && s[p + 1] == '=' && no_newline(
        s.subrange(p + 2, s.len() as int),
    ) {
        Some((s.subrange(0, w), s.subrange(p + 2, s.len() as int)))
    } else {
        None
    }
}

/// `s` as `name t= type`: a name, optional white space, `t=`, and the rest of
/// the line. Where no white space comes before it, the `t` may end the name
/// itself, as in `at=`, which binds `a`.
pub open spec fn type_split(s: Seq<char>) -> Option<(Seq<char>, Seq<char>)> {
    let w = word_end(s, 0);
    let p = space_end(s, w);
    if w > 0 && p + 2 <= s.len() && s[p] == 't' && s[p + 1] == '=' && no_newline(
        s.subrange(p + 2, s.len() as int),
    ) {
        Some((s.subrange(0, w), s.subrange(p + 2, s.len() as int)))
    } else if w >= 2 && w < s.len() && s[w - 1] == 't' && s[w] == '=' && no_newline(
        s.subrange(w + 1, s.len() as int),
    ) {
        Some((s.subrange(0, w - 1), s.subrange(w + 1, s.len() as int)))
    } else {
        None
    }
}

/// The rest of `s` after the prefix `pre`, if `s` starts with it and the rest is
/// one line.
pub open spec fn after(s: Seq<char>, pre: Seq<char>) -> Option<Seq<char>> {
    if pre.len() <= s.len() && s.subrange(0, pre.len() as int) == pre && no_newline(
        s.subrange(pre.len() as int, s.len() as int),
    ) {
        Some(s.subrange(pre.len() as int, s.len() as int))
    } else {
        None
    }
}

/// The part of `s` after `:s` and at least one blank.
pub open spec fn saved(s: Seq<char>) -> Option<Seq<char>> {
    if s.len() >= 3 && s[0] == ':' && s[1] == 's' && s[2] == ' ' {
        Some(s.subrange(blank_end(s, 2), s.len() as int))
    } else {
        None
    }
}

/// A line typed at the prompt.
pub enum Command {
    /// `:p <expr>`: show how `<expr>` parses.
    Parse(String),
    /// `:t <expr>`: synthesize the type of `<expr>`.
    Type(String),
    /// `:e <expr>`: evaluate without type checking.
    Eval(String),
    /// `:tt <type>`: canonicalize a type.
    Canonicalize(String),
    /// `<name> := <expr>`: bind a value for the session.
    AssignValue(String, String),
    /// `:s <name> := <expr>`: bind it and save the binding (the first field) to
    /// the prelude.
    SaveValue(String, String, String),
    /// `<name> t= <type>`: bind a type for the session.
    AssignType(String, String),
    /// `:s <name> t= <type>`: bind it and save the binding to the prelude.
    SaveType(String, String, String),
    /// Anything else: type check and evaluate the whole line.
    TypeAndEval(String),
}

/// A command as text.
pub enum CommandView {
    Parse(Seq<char>),
    Type(Seq<char>),
    Eval(Seq<char>),
    Canonicalize(Seq<char>),
    AssignValue(Seq<char>, Seq<char>),
    SaveValue(Seq<char>, Seq<char>, Seq<char>),
    AssignType(Seq<char>, Seq<char>),
    SaveType(Seq<char>, Seq<char>, Seq<char>),
    TypeAndEval(Seq<char>),
}

impl Command {
    pub open spec fn view(&self) -> CommandView {
        match self {
            Command::Parse(e) => CommandView::Parse(e@),
            Command::Type(e) => CommandView::Type(e@),
            Command::Eval(e) => CommandView::Eval(e@),
            Command::Canonicalize(e) => CommandView::Canonicalize(e@),
            Command::AssignValue(n, e) => CommandView::AssignValue(n@, e@),
            Command::SaveValue(l, n, e) => CommandView::SaveValue(l@, n@, e@),
            Command::AssignType(n, e) => CommandView::AssignType(n@, e@),
            Command::SaveType(l, n, e) => CommandView::SaveType(l@, n@, e@),
            Command::TypeAndEval(e) => CommandView::TypeAndEval(e@),
        }
    }
}

/// What `:s` followed by `rest` asks for, if anything.
pub open spec fn save_of(rest: Seq<char>) -> Option<CommandView> {
    match value_split(rest) {
        Some((n, e)) => Some(CommandView::SaveValue(rest, n, e)),
        None => None,
    }
}

pub open spec fn save_type_of(rest: Seq<char>) -> Option<CommandView> {
    match type_split(rest) {
        Some((n, e)) => Some(CommandView::SaveType(rest, n, e)),
        None => None,
    }
}

/// What a line at the prompt asks for; the first form that fits wins.
pub open spec fn command_of(s: Seq<char>) -> CommandView {
    if let Some(e) = after(s, seq![':', 'p', ' ']) {
        CommandView::Parse(e)
    } else if let Some(e) = after(s, seq![':', 't', ' ']) {
        CommandView::Type(e)
    } else if let Some(e) = after(s, seq![':', 'e', ' ']) {
        CommandView::Eval(e)
    } else if let Some(e) = after(s, seq![':', 't', 't', ' ']) {
        CommandView::Canonicalize(e)
    } else if let Some((n, e)) = value_split(s) {
        CommandView::AssignValue(n, e)
    } else if saved(s) is Some && save_of(saved(s)->0) is Some {
        save_of(saved(s)->0)->0
    } else if let Some((n, e)) = type_split(s) {
        CommandView::AssignType(n, e)
    } else if saved(s) is Some && save_type_of(saved(s)->0) is Some {
        save_type_of(saved(s)->0)->0
    } else {
        CommandView::TypeAndEval(s)
    }
}

/// A line of the prelude file.
pub enum PreludeLine {
    Comment,
    /// `<name> := <expr>`
    Value(String, String),
    /// `<name> t= <type>`
    Type(String, String),
    /// Anything else, which loading skips.
    Ignored,
}

/// What a prelude line holds: a comment starts with `#`.
pub open spec fn prelude_line_of(s: Seq<char>) -> PreludeLineView {
    if s.len() > 0 && s[0] == '#' {
        PreludeLineView::Comment
    } else if let Some((n, e)) = value_split(s) {
        PreludeLineView::Value(n, e)
    } else if let Some((n, e)) = type_split(s) {
        PreludeLineView::Type(n, e)
    } else {
        PreludeLineView::Ignored
    }
}

pub enum PreludeLineView {
    Comment,
    Value(Seq<char>, Seq<char>),
    Type(Seq<char>, Seq<char>),
    Ignored,
}

impl PreludeLine {
    pub open spec fn view(&self) -> PreludeLineView {
        match self {
            PreludeLine::Comment => PreludeLineView::Comment,
            PreludeLine::Value(n, e) => PreludeLineView::Value(n@, e@),
            PreludeLine::Type(n, e) => PreludeLineView::Type(n@, e@),
            PreludeLine::Ignored => PreludeLineView::Ignored,
        }
    }
}

fn is_word(c: char) -> (r: bool)
    ensures
        r == is_word_char(c),
{
    ('a' <= c && c <= 'z') || ('A' <= c && c <= 'Z') || ('0' <= c && c <= '9') || c == '_'
}

fn is_space(c: char) -> (r: bool)
    ensures
        r == is_space_char(c),
{
    c == ' ' || c == '\t' || c == '\n' || c == '\r' || c == '\x0B' || c == '\x0C'
}

fn find_word_end(s: &str, i: usize) -> (r: usize)
    requires
        i <= s@.len(),
    ensures
        r == word_end(s@, i as int),
        i <= r <= s@.len(),
{
    let n = s.unicode_len();
    let mut j = i;
    while j < n && is_word(s.get_char(j))
        invariant
            i <= j <= n,
            n == s@.len(),
            word_end(s@, i as int) == word_end(s@, j as int),
        decreases n - j,
    {
        j = j + 1;
    }
    j
}

fn find_space_end(s: &str, i: usize) -> (r: usize)
    requires
        i <= s@.len(),
    ensures
        r == space_end(s@, i as int),
        i <= r <= s@.len(),
{
    let n = s.unicode_len();
    let mut j = i;
    while j < n && is_space(s.get_char(j))
        invariant
            i <= j <= n,
            n == s@.len(),
            space_end(s@, i as int) == space_end(s@, j as int),
        decreases n - j,
    {
        j = j + 1;
    }
    j
}

fn find_blank_end(s: &str, i: usize) -> (r: usize)
    requires
        i <= s@.len(),
    ensures
        r == blank_end(s@, i as int),
        i <= r <= s@.len(),
{
    let n = s.unicode_len();
    let mut j = i;
    while j < n && s.get_char(j) == ' '
        invariant
            i <= j <= n,
            n == s@.len(),
            blank_end(s@, i as int) == blank_end(s@, j as int),
        decreases n - j,
    {
        j = j + 1;
    }
    j
}

/// Whether `s[from..]` holds no line break.
fn one_line_from(s: &str, from: usize) -> (r: bool)
    requires
        from <= s@.len(),
    ensures
        r == no_newline(s@.subrange(from as int, s@.len() as int)),
{
    let n = s.unicode_len();
    let mut j = from;
    while j < n
        invariant
            from <= j <= n,
            n == s@.len(),
            forall|k: int| from <= k < j ==> s@[k] != '\n',
        decreases n - j,
    {
        if s.get_char(j) == '\n' {
            assert(s@.subrange(from as int, n as int)[j - from] == '\n');
            return false;
        }
        j = j + 1;
    }
    assert forall|k: int| 0 <= k < s@.subrange(from as int, n as int).len() implies s@.subrange(
        from as int,
        n as int,
    )[k] != '\n' by {
        assert(s@[from + k] != '\n');
    }
    true
}

fn owned(s: &str, from: usize, to: usize) -> (r: String)
    requires
        from <= to <= s@.len(),
    ensures
        r@ == s@.subrange(from as int, to as int),
{
    s.substring_char(from, to).to_owned()
}

/// `s` as `name := expression`.
pub fn split_value(s: &str) -> (r: Option<(String, String)>)
    ensures
        match r {
            None => value_split(s@) is None,
            Some((n, e)) => value_split(s@) == Some((n@, e@)),
        },
{
    let len = s.unicode_len();
    let w = find_word_end(s, 0);
    let p = find_space_end(s, w);
    if w > 0 && len - p >= 2 && s.get_char(p) == ':' && s.get_char(p + 1) == '=' && one_line_from(s, p + 2) {
        Some((owned(s, 0, w), owned(s, p + 2, len)))
    } else {
        None
    }
}

/// `s` as `name t= type`.
pub fn split_type(s: &str) -> (r: Option<(String, String)>)
    ensures
        match r {
            None => type_split(s@) is None,
            Some((n, e)) => type_split(s@) == Some((n@, e@)),
        },
{
    let len = s.unicode_len();
    let w = find_word_end(s, 0);
    let p = find_space_end(s, w);
    if w > 0 && len - p >= 2 && s.get_char(p) == 't' && s.get_char(p + 1) == '=' && one_line_from(s, p + 2) {
        Some((owned(s, 0, w), owned(s, p + 2, len)))
    } else if w >= 2 && w < len && s.get_char(w - 1) == 't' && s.get_char(w) == '=' && one_line_from(s, w + 1) {
        Some((owned(s, 0, w - 1), owned(s, w + 1, len)))
    } else {
        None
    }
}

fn chars3(a: char, b: char, c: char) -> (r: Vec<char>)
    ensures
        r@ == seq![a, b, c],
{
    let mut r = Vec::new();
    r.push(a);
    r.push(b);
    r.push(c);
    assert(r@ =~= seq![a, b, c]);
    r
}

fn chars4(a: char, b: char, c: char, d: char) -> (r: Vec<char>)
    ensures
        r@ == seq![a, b, c, d],
{
    let mut r = chars3(a, b, c);
    r.push(d);
    assert(r@ =~= seq![a, b, c, d]);
    r
}

/// The rest of `s` after `pre`, if `s` starts with it and the rest is one line.
fn after_prefix(s: &str, pre: &Vec<char>) -> (r: Option<String>)
    ensures
        match r {
            None => after(s@, pre@) is None,
            Some(e) => after(s@, pre@) == Some(e@),
        },
{
    let len = s.unicode_len();
    if pre.len() > len {
        return None;
    }
    let mut i: usize = 0;
    while i < pre.len()
        invariant
            i <= pre.len() <= len,
            len == s@.len(),
            forall|k: int| 0 <= k < i ==> s@[k] == pre@[k],
        decreases pre.len() - i,
    {
        if s.get_char(i) != pre[i] {
            assert(s@.subrange(0, pre.len() as int)[i as int] != pre@[i as int]);
            return None;
        }
        i = i + 1;
    }
    assert(s@.subrange(0, pre.len() as int) =~= pre@);
    if one_line_from(s, pre.len()) {
        Some(owned(s, pre.len(), len))
    } else {
        None
    }
}

/// Where the binding after `:s` and its blanks starts.
fn saved_start(s: &str) -> (r: Option<usize>)
    ensures
        match r {
            None => saved(s@) is None,
            Some(i) => i <= s@.len() && saved(s@) == Some(s@.subrange(i as int, s@.len() as int)),
        },
{
    let len = s.unicode_len();
    if len >= 3 && s.get_char(0) == ':' && s.get_char(1) == 's' && s.get_char(2) == ' ' {
        Some(find_blank_end(s, 2))
    } else {
        None
    }
}

/// What a line typed at the prompt asks for.
pub fn classify(line: &str) -> (r: Command)
    ensures
        r@ == command_of(line@),
{
    let len = line.unicode_len();
    if let Some(e) = after_prefix(line, &chars3(':', 'p', ' ')) {
        return Command::Parse(e);
    }
    if let Some(e) = after_prefix(line, &chars3(':', 't', ' ')) {
        return Command::Type(e);
    }
    if let Some(e) = after_prefix(line, &chars3(':', 'e', ' ')) {
        return Command::Eval(e);
    }
    if let Some(e) = after_prefix(line, &chars4(':', 't', 't', ' ')) {
        return Command::Canonicalize(e);
    }
    if let Some((n, e)) = split_value(line) {
        return Command::AssignValue(n, e);
    }
    let start = saved_start(line);
    if let Some(i) = start {
        let rest = line.substring_char(i, len);
        if let Some((n, e)) = split_value(rest) {
            return Command::SaveValue(rest.to_owned(), n, e);
        }
    }
    if let Some((n, e)) = split_type(line) {
        return Command::AssignType(n, e);
    }
    if let Some(i) = start {
        let rest = line.substring_char(i, len);
        if let Some((n, e)) = split_type(rest) {
            return Command::SaveType(rest.to_owned(), n, e);
        }
    }
    Command::TypeAndEval(line.to_owned())
}

/// What a line of the prelude file holds.
pub fn classify_prelude_line(line: &str) -> (r: PreludeLine)
    ensures
        r@ == prelude_line_of(line@),
{
    if line.unicode_len() > 0 && line.get_char(0) == '#' {
        return PreludeLine::Comment;
    }
    if let Some((n, e)) = split_value(line) {
        return PreludeLine::Value(n, e);
    }
    if let Some((n, e)) = split_type(line) {
        return PreludeLine::Type(n, e);
    }
    PreludeLine::Ignored
}

/// Whether `w` begins `c`.
pub open spec fn starts_with(c: Seq<char>, w: Seq<char>) -> bool {
    w.len() <= c.len() && c.subrange(0, w.len() as int) == w
}

/// The candidates that begin with `w`, in their order.
pub open spec fn completions_of(cands: Seq<Seq<char>>, w: Seq<char>) -> Seq<Seq<char>>
    decreases cands.len(),
{
    if cands.len() == 0 {
        Seq::empty()
    } else {
        let rest = completions_of(cands.drop_last(), w);
        if starts_with(cands.last(), w) {
            rest.push(cands.last())
        } else {
            rest
        }
    }
}

fn begins(c: &str, w: &str) -> (r: bool)
    ensures
        r == starts_with(c@, w@),
{
    let n = w.unicode_len();
    if n > c.unicode_len() {
        return false;
    }
    let mut i: usize = 0;
    while i < n
        invariant
            i <= n <= c@.len(),
            n == w@.len(),
            forall|k: int| 0 <= k < i ==> c@[k] == w@[k],
        decreases n - i,
    {
        if c.get_char(i) != w.get_char(i) {
            assert(c@.subrange(0, n as int)[i as int] != w@[i as int]);
            return false;
        }
        i = i + 1;
    }
    assert(c@.subrange(0, n as int) =~= w@);
    true
}

pub open spec fn views(v: Seq<String>) -> Seq<Seq<char>> {
    v.map_values(|s: String| s@)
}

/// The names among `cands` that complete the word `w` typed so far.
pub fn completions(cands: &Vec<String>, w: &str) -> (r: Vec<String>)
    ensures
        views(r@) == completions_of(views(cands@), w@),
{
    let mut r: Vec<String> = Vec::new();
    let mut i: usize = 0;
    while i < cands.len()
        invariant
            i <= cands.len(),
            views(r@) == completions_of(views(cands@.subrange(0, i as int)), w@),
        decreases cands.len() - i,
    {
        let c = &cands[i];
        assert(views(cands@.subrange(0, i + 1)).drop_last() =~= views(cands@.subrange(0, i as int)));
        assert(views(cands@.subrange(0, i + 1)).last() == c@);
        if begins(c.as_str(), w) {
            let owned = c.as_str().to_owned();
            r.push(owned);
            assert(views(r@) =~= completions_of(views(cands@.subrange(0, i as int)), w@).push(c@));
        }
        i = i + 1;
    }
    assert(cands@.subrange(0, cands.len() as int) =~= cands@);
    r
}

} // verus!
