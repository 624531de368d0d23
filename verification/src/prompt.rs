//! The command interpreter: the tokenizer that splits an input line into
//! arguments, and the dispatch of built-in commands.
//!
//! An input line is a sequence of fields. An unquoted field ends at
//! whitespace; a field that starts with `'` or `"` ends at the next
//! occurrence of that quote, or where the input ends. Inside quotes a
//! backslash stands with the character after it for one character of text;
//! outside quotes it is a character like any other. A quoted field always
//! gives an argument; an unquoted one gives an argument unless it is empty.

use vstd::prelude::*;
use vstd::string::*;

use crate::cmd::{Cmd, CmdView};
use crate::text::{is_whitespace, push_char, same_text, whitespace};

verus! {

/// Whether `c` opens a quoted field.
pub open spec fn is_quote(c: char) -> bool {
    c == '\'' || c == '"'
}

/// The character that a backslash followed by `c` stands for: a newline for
/// `n`, and `c` itself otherwise.
pub open spec fn escaped(c: char) -> char {
    if c == 'n' {
        '\n'
    } else {
        c
    }
}

/// `s` without its first character, and `s` itself where it is empty.
pub open spec fn drop_first(s: Seq<char>) -> Seq<char> {
    if s.len() > 0 {
        s.skip(1)
    } else {
        s
    }
}

/// The first character of quoted text in `s` and what follows it in `s`. A
/// backslash and the character after it are one character of text. A
/// backslash that ends the input is none, and neither is empty input.
pub open spec fn read_char(s: Seq<char>) -> (Option<char>, Seq<char>) {
    if s.len() == 0 {
        (None, s)
    } else if s[0] != '\\' {
        (Some(s[0]), s.skip(1))
    } else if s.len() == 1 {
        (None, s.skip(1))
    } else {
        (Some(escaped(s[1])), s.skip(2))
    }
}

/// Whether `c` closes a field: a field opened by a quote is closed by the same
/// quote, and an unquoted field by whitespace.
pub open spec fn closes(c: char, quote: Option<char>) -> bool {
    match quote {
        Some(q) => c == q,
        None => whitespace(c),
    }
}

/// The first character of text of a field in `s` and what follows it in `s`.
/// In a quoted field a backslash and the character after it are one
/// character of text; in an unquoted field every character is text.
pub open spec fn read_text(s: Seq<char>, quote: Option<char>) -> (Option<char>, Seq<char>) {
    if quote is Some {
        read_char(s)
    } else if s.len() == 0 {
        (None, s)
    } else {
        (Some(s[0]), s.skip(1))
    }
}

/// The text of the field with which `s` starts.
pub open spec fn field_text(s: Seq<char>, quote: Option<char>) -> Seq<char>
    decreases s.len(),
{
    if s.len() == 0 || closes(s[0], quote) {
        Seq::empty()
    } else {
        match read_text(s, quote).0 {
            Some(c) => seq![c] + field_text(read_text(s, quote).1, quote),
            None => field_text(read_text(s, quote).1, quote),
        }
    }
}

/// What is left of `s` where the field with which it starts ends: the
/// character that closes the field and all that follows it, or nothing if the
/// field runs to the end of the input.
pub open spec fn field_close(s: Seq<char>, quote: Option<char>) -> Seq<char>
    decreases s.len(),
{
    if s.len() == 0 || closes(s[0], quote) {
        s
    } else {
        field_close(read_text(s, quote).1, quote)
    }
}

/// What follows in `s` the field with which it starts and the character that
/// closes it.
pub open spec fn after_field(s: Seq<char>, quote: Option<char>) -> Seq<char> {
    drop_first(field_close(s, quote))
}

/// The text of the quoted field that the first character of `s` opens.
pub open spec fn quoted_text(s: Seq<char>) -> Seq<char> {
    if s.len() > 0 {
        field_text(s.skip(1), Some(s[0]))
    } else {
        Seq::empty()
    }
}

/// What follows in `s` the quoted field that its first character opens.
pub open spec fn after_quoted(s: Seq<char>) -> Seq<char> {
    if s.len() > 0 {
        after_field(s.skip(1), Some(s[0]))
    } else {
        s
    }
}

/// The arguments that the input line `s` holds, in order.
pub open spec fn tokenize(s: Seq<char>) -> Seq<Seq<char>>
    decreases s.len(),
{
    if s.len() == 0 {
        Seq::empty()
    } else if is_quote(s[0]) {
        proof {
            field_close_is_shorter(s.skip(1), Some(s[0]));
        }
        seq![quoted_text(s)] + tokenize(after_quoted(s))
    } else {
        proof {
            field_close_is_shorter(s, None);
        }
        if field_text(s, None).len() == 0 {
            tokenize(after_field(s, None))
        } else {
            seq![field_text(s, None)] + tokenize(after_field(s, None))
        }
    }
}

/// A field ends inside the input that it starts in, and what follows the
/// field and the character that closes it is shorter than that input, unless
/// the input is empty.
pub proof fn field_close_is_shorter(s: Seq<char>, quote: Option<char>)
    ensures
        field_close(s, quote).len() <= s.len(),
        after_field(s, quote).len() <= s.len(),
        s.len() > 0 ==> after_field(s, quote).len() < s.len(),
    decreases s.len(),
{
    if !(s.len() == 0 || closes(s[0], quote)) {
        field_close_is_shorter(read_text(s, quote).1, quote);
    }
}

/// A parsed command: the arguments of one input line, in the order in which
/// they were typed.
pub struct Command {
    pub args: Vec<String>,
}

impl View for Command {
    type V = Seq<Seq<char>>;

    open spec fn view(&self) -> Seq<Seq<char>> {
        self.args.deep_view()
    }
}

/// A tokenizer over one input line. Its view is the input that it has not
/// read yet.
pub struct CommandParser {
    chars: Vec<char>,
    pos: usize,
}

impl View for CommandParser {
    type V = Seq<char>;

    closed spec fn view(&self) -> Seq<char> {
        self.chars@.skip(self.pos as int)
    }
}

impl CommandParser {
    #[verifier::type_invariant]
    spec fn in_bounds(self) -> bool {
        self.pos <= self.chars.len()
    }

    /// The character that is read next, if the input has not ended.
    pub fn peek(&self) -> (c: Option<char>)
        ensures
            c == (if self@.len() > 0 {
                Some(self@[0])
            } else {
                None
            }),
    {
        proof {
            use_type_invariant(self);
        }
        if self.pos < self.chars.len() {
            Some(self.chars[self.pos])
        } else {
            None
        }
    }

    /// Passes over one character, if the input has not ended.
    pub fn skip(&mut self)
        ensures
            final(self)@ == drop_first(old(self)@),
    {
        proof {
            use_type_invariant(&*self);
        }
        if self.pos < self.chars.len() {
            self.pos = self.pos + 1;
            assert(self@ =~= old(self)@.skip(1));
        }
    }

    /// Reads one character, if the input has not ended.
    pub fn next(&mut self) -> (c: Option<char>)
        ensures
            c == (if old(self)@.len() > 0 {
                Some(old(self)@[0])
            } else {
                None
            }),
            final(self)@ == drop_first(old(self)@),
    {
        let previous = self.peek();
        self.skip();
        previous
    }

    /// A tokenizer at the start of `src`.
    pub fn new(src: &str) -> (parser: Self)
        ensures
            parser@ == src@,
    {
        let mut chars: Vec<char> = Vec::new();
        for c in it: src.chars()
            invariant
                it.seq() == src@,
                chars@ == it.seq().take(it.index() as int),
        {
            chars.push(c);
        }
        let parser = CommandParser { chars, pos: 0 };
        assert(parser@ =~= src@);
        parser
    }

    /// Reads all arguments that are left in the input.
    pub fn parse(&mut self) -> (cmd: Command)
        ensures
            cmd@ == tokenize(old(self)@),
            final(self)@.len() == 0,
    {
        let mut cmd = Command { args: Vec::new() };
        assert(cmd@ =~= Seq::<Seq<char>>::empty());
        loop
            invariant
                cmd@ + tokenize(self@) == tokenize(old(self)@),
            decreases self@.len(),
        {
            let ghost before = self@;
            let ghost found = cmd@;
            proof {
                field_close_is_shorter(before, None);
                if before.len() > 0 {
                    field_close_is_shorter(before.skip(1), Some(before[0]));
                }
            }
            match self.peek() {
                None => {
                    assert(cmd@ + Seq::<Seq<char>>::empty() =~= cmd@);
                    return cmd;
                },
                Some(c) => {
                    if c == '\'' || c == '"' {
                        let text = self.parse_str();
                        cmd.args.push(text);
                        assert(cmd@ =~= found + seq![quoted_text(before)]);
                        assert(cmd@ + tokenize(self@) =~= found + tokenize(before));
                    } else {
                        let arg = self.parse_arg();
                        if !arg.as_str().is_empty() {
                            cmd.args.push(arg);
                            assert(cmd@ =~= found + seq![field_text(before, None)]);
                            assert(cmd@ + tokenize(self@) =~= found + tokenize(before));
                        }
                    }
                },
            }
        }
    }

    /// Reads one unquoted field and the whitespace character that closes it,
    /// and returns the text of the field.
    pub fn parse_arg(&mut self) -> (arg: String)
        ensures
            arg@ == field_text(old(self)@, None),
            final(self)@ == after_field(old(self)@, None),
    {
        let mut arg = String::new();
        loop
            invariant
                arg@ + field_text(self@, None) == field_text(old(self)@, None),
                field_close(self@, None) == field_close(old(self)@, None),
            decreases self@.len(),
        {
            let ghost text = arg@;
            match self.peek() {
                None => {
                    assert(arg@ + Seq::<char>::empty() =~= arg@);
                    self.skip();
                    return arg;
                },
                Some(c) => {
                    if is_whitespace(c) {
                        assert(arg@ + Seq::<char>::empty() =~= arg@);
                        self.skip();
                        return arg;
                    }
                    let ghost rest = field_text(self@.skip(1), None);
                    self.skip();
                    push_char(&mut arg, c);
                    assert(arg@ + rest =~= text + (seq![c] + rest));
                },
            }
        }
    }

    /// Reads one quoted field, from the quote that opens it to the quote
    /// that closes it, and returns the text between the two.
    pub fn parse_str(&mut self) -> (text: String)
        ensures
            text@ == quoted_text(old(self)@),
            final(self)@ == after_quoted(old(self)@),
    {
        let mut text = String::new();
        let begin = match self.next() {
            Some(c) => c,
            None => {
                return text;
            },
        };
        let ghost body = self@;
        loop
            invariant
                old(self)@.len() > 0,
                begin == old(self)@[0],
                body == old(self)@.skip(1),
                text@ + field_text(self@, Some(begin)) == field_text(body, Some(begin)),
                field_close(self@, Some(begin)) == field_close(body, Some(begin)),
            decreases self@.len(),
        {
            let ghost read = text@;
            match self.peek() {
                None => {
                    assert(text@ + Seq::<char>::empty() =~= text@);
                    self.skip();
                    return text;
                },
                Some(c) => {
                    if c == begin {
                        assert(text@ + Seq::<char>::empty() =~= text@);
                        self.skip();
                        return text;
                    }
                    let ghost rest = field_text(read_char(self@).1, Some(begin));
                    match self.parse_char() {
                        Some(p) => {
                            push_char(&mut text, p);
                            assert(text@ + rest =~= read + (seq![p] + rest));
                        },
                        None => {},
                    }
                },
            }
        }
    }

    /// Reads one character of quoted text: a backslash and the character
    /// after it are read as one.
    pub fn parse_char(&mut self) -> (c: Option<char>)
        ensures
            c == read_char(old(self)@).0,
            final(self)@ == read_char(old(self)@).1,
    {
        match self.next() {
            Some('\\') => {
                match self.next() {
                    Some('n') => {
                        assert(self@ =~= old(self)@.skip(2));
                        Some('\n')
                    },
                    Some(e) => {
                        assert(self@ =~= old(self)@.skip(2));
                        Some(e)
                    },
                    None => None,
                }
            },
            c => c,
        }
    }
}

impl Command {
    /// Splits the input line `src` into its arguments.
    pub fn parse(src: &str) -> (cmd: Command)
        ensures
            cmd@ == tokenize(src@),
    {
        let mut parser = CommandParser::new(src);
        parser.parse()
    }
}

/// Whether `c` means nothing to the tokenizer: it is no whitespace, no quote
/// and no backslash.
pub open spec fn plain(c: char) -> bool {
    !whitespace(c) && !is_quote(c) && c != '\\'
}

/// Whether `word` is not empty and made of plain characters only.
pub open spec fn plain_word(word: Seq<char>) -> bool {
    word.len() > 0 && forall|i: int| 0 <= i < word.len() ==> plain(#[trigger] word[i])
}

/// `args` with `mark` between each two neighbours.
pub open spec fn joined_by(args: Seq<Seq<char>>, mark: char) -> Seq<char>
    decreases args.len(),
{
    if args.len() == 0 {
        Seq::empty()
    } else if args.len() == 1 {
        args[0]
    } else {
        joined_by(args.drop_last(), mark).push(mark) + args.last()
    }
}

/// `args` with one space between each two neighbours.
pub open spec fn joined(args: Seq<Seq<char>>) -> Seq<char> {
    joined_by(args, ' ')
}

/// Joining puts the first argument first: what is joined is the first
/// argument, and after it the mark and the rest joined, if there is a rest.
pub proof fn joined_by_front(args: Seq<Seq<char>>, mark: char)
    requires
        args.len() >= 2,
    ensures
        joined_by(args, mark) == args[0] + seq![mark] + joined_by(args.skip(1), mark),
    decreases args.len(),
{
    if args.len() == 2 {
        assert(args.drop_last() =~= seq![args[0]]);
        assert(args.skip(1) =~= seq![args[1]]);
        assert(joined_by(args.drop_last(), mark) == args[0]);
        assert(joined_by(args.skip(1), mark) == args[1]);
        assert(joined_by(args, mark) =~= args[0] + seq![mark] + args[1]);
    } else {
        joined_by_front(args.drop_last(), mark);
        assert(args.drop_last().skip(1) =~= args.skip(1).drop_last());
        assert(args.skip(1).last() == args.last());
        assert(args.drop_last()[0] == args[0]);
        assert(joined_by(args, mark) =~= args[0] + seq![mark] + joined_by(args.skip(1), mark));
    }
}

/// An unquoted field made of plain characters is its own text, and it ends
/// where the plain characters end.
proof fn plain_field(word: Seq<char>, rest: Seq<char>)
    requires
        forall|i: int| 0 <= i < word.len() ==> plain(#[trigger] word[i]),
        rest.len() == 0 || whitespace(rest[0]),
    ensures
        field_text(word + rest, None) == word,
        field_close(word + rest, None) == rest,
    decreases word.len(),
{
    let s = word + rest;
    if word.len() == 0 {
        assert(s =~= rest);
    } else {
        assert(s[0] == word[0]);
        assert(plain(word[0]));
        assert(s.skip(1) =~= word.skip(1) + rest);
        assert forall|i: int| 0 <= i < word.skip(1).len() implies plain(
            #[trigger] word.skip(1)[i],
        ) by {
            assert(word.skip(1)[i] == word[i + 1]);
        }
        plain_field(word.skip(1), rest);
        assert(seq![word[0]] + word.skip(1) =~= word);
    }
}

/// Arguments that are not empty and hold no whitespace, no quote and no
/// backslash come back from the tokenizer as they are once they were joined
/// by single spaces.
pub proof fn tokenize_joined(args: Seq<Seq<char>>)
    requires
        forall|i: int| 0 <= i < args.len() ==> plain_word(#[trigger] args[i]),
    ensures
        tokenize(joined(args)) == args,
    decreases args.len(),
{
    if args.len() == 0 {
        assert(tokenize(joined(args)) =~= args);
    } else {
        let word = args[0];
        assert(plain_word(word));
        assert(plain(word[0]));
        if args.len() == 1 {
            let rest = Seq::<char>::empty();
            assert(joined(args) =~= word + rest);
            plain_field(word, rest);
            assert(after_field(word + rest, None) =~= rest);
            assert((word + rest)[0] == word[0]);
            assert(tokenize(rest) =~= Seq::<Seq<char>>::empty());
            assert(tokenize(word + rest) =~= seq![word]);
            assert(args =~= seq![word]);
        } else {
            let others = args.skip(1);
            let rest = seq![' '] + joined(others);
            joined_by_front(args, ' ');
            assert(joined(args) =~= word + rest);
            plain_field(word, rest);
            assert(after_field(word + rest, None) =~= joined(others));
            assert((word + rest)[0] == word[0]);
            assert forall|i: int| 0 <= i < others.len() implies plain_word(
                #[trigger] others[i],
            ) by {
                assert(others[i] == args[i + 1]);
            }
            tokenize_joined(others);
            assert(tokenize(word + rest) =~= seq![word] + others);
            assert(args =~= seq![word] + others);
        }
    }
}

/// What the embedding program is asked to do once a command was dispatched.
#[derive(Debug, PartialEq, Eq)]
pub enum Dispatch {
    /// Nothing: the command was done inside the session, or there was none.
    Done,
    /// Move the working directory up one level, and ignore a failure.
    ParentDir,
    /// Change the working directory to this path, taken from the current
    /// one, and ignore a failure.
    ChangeDir(String),
    /// Start this command line as a new process and attach it to the session.
    Spawn(String),
}

/// A [`Dispatch`] as contracts see it.
pub enum DispatchView {
    Done,
    ParentDir,
    ChangeDir(Seq<char>),
    Spawn(Seq<char>),
}

impl View for Dispatch {
    type V = DispatchView;

    open spec fn view(&self) -> DispatchView {
        match *self {
            Dispatch::Done => DispatchView::Done,
            Dispatch::ParentDir => DispatchView::ParentDir,
            Dispatch::ChangeDir(path) => DispatchView::ChangeDir(path@),
            Dispatch::Spawn(line) => DispatchView::Spawn(line@),
        }
    }
}

impl Dispatch {
    /// Whether a process is to be started.
    pub fn spawns(&self) -> (r: bool)
        ensures
            r == (self@ is Spawn),
    {
        match self {
            Dispatch::Spawn(_) => true,
            _ => false,
        }
    }
}

/// One submitted input line and what became of it.
pub struct Submitted {
    /// The line as it was typed.
    pub line: String,
    /// Whether a process was attached when the line was submitted. The line,
    /// followed by a line terminator, is then to be written to its input
    /// before anything else is done.
    pub forward: bool,
    /// What the line asks of the embedding program.
    pub request: Dispatch,
}

/// The name of the command: the first argument, or nothing where there is no
/// argument.
pub open spec fn command_name(args: Seq<Seq<char>>) -> Seq<char> {
    if args.len() > 0 {
        args[0]
    } else {
        Seq::empty()
    }
}

/// The arguments that follow the name of the command.
pub open spec fn operands(args: Seq<Seq<char>>) -> Seq<Seq<char>> {
    if args.len() > 0 {
        args.skip(1)
    } else {
        args
    }
}

/// The session after the command `args` was dispatched. `argv` writes its
/// operands with `&` between them, and then a newline; `cls` and `clear`
/// empty the output; `exit` ends the session. Every other command leaves the
/// session as it is.
pub open spec fn dispatched<P>(session: CmdView<P>, args: Seq<Seq<char>>) -> CmdView<P> {
    let name = command_name(args);
    if name == "argv"@ {
        session.write_stdout(joined_by(operands(args), '&')).put_stdout('\n')
    } else if name == "cls"@ || name == "clear"@ {
        CmdView { output: Seq::empty(), ..session }
    } else if name == "exit"@ {
        CmdView { running: false, ..session }
    } else {
        session
    }
}

/// What the command `args`, typed as `line`, asks of the embedding program.
/// `cd..` asks for the parent directory; `cd` for the directory that its
/// operands name, joined by single spaces; the other built-in commands and
/// the empty command for nothing; and every other command for a new process
/// that runs `line`.
pub open spec fn dispatch_request(args: Seq<Seq<char>>, line: Seq<char>) -> DispatchView {
    let name = command_name(args);
    if name == "cd.."@ {
        DispatchView::ParentDir
    } else if name == "cd"@ {
        DispatchView::ChangeDir(joined_by(operands(args), ' '))
    } else if name == "argv"@ || name == "cls"@ || name == "clear"@ || name == "exit"@
        || name.len() == 0 {
        DispatchView::Done
    } else {
        DispatchView::Spawn(line)
    }
}

/// The session after a prompt was written: the working directory `dir`,
/// where it is known, and then the marker `>`.
pub open spec fn prompted<P>(session: CmdView<P>, dir: Option<Seq<char>>) -> CmdView<P> {
    match dir {
        Some(d) => session.write_stdout(d).write_stdout(seq!['>']),
        None => session.write_stdout(seq!['>']),
    }
}

/// The characters of `dir`, where there is one.
pub open spec fn dir_text(dir: Option<&str>) -> Option<Seq<char>> {
    match dir {
        Some(d) => Some(d@),
        None => None,
    }
}

/// The session once the request of a submitted line was carried out: where
/// no process was to be started, a prompt is written and after it the line
/// that was submitted.
pub open spec fn concluded<P>(
    session: CmdView<P>,
    request: DispatchView,
    dir: Option<Seq<char>>,
    line: Seq<char>,
) -> CmdView<P> {
    if request is Spawn {
        session
    } else {
        prompted(session, dir).write_stdout(line)
    }
}

/// The names of the built-in commands differ from one another, and none of
/// them is empty.
proof fn builtin_names()
    ensures
        "argv"@ == seq!['a', 'r', 'g', 'v'],
        "cls"@ == seq!['c', 'l', 's'],
        "clear"@ == seq!['c', 'l', 'e', 'a', 'r'],
        "exit"@ == seq!['e', 'x', 'i', 't'],
        "cd.."@ == seq!['c', 'd', '.', '.'],
        "cd"@ == seq!['c', 'd'],
{
    reveal_strlit("argv");
    reveal_strlit("cls");
    reveal_strlit("clear");
    reveal_strlit("exit");
    reveal_strlit("cd..");
    reveal_strlit("cd");
    assert("argv"@ =~= seq!['a', 'r', 'g', 'v']);
    assert("cls"@ =~= seq!['c', 'l', 's']);
    assert("clear"@ =~= seq!['c', 'l', 'e', 'a', 'r']);
    assert("exit"@ =~= seq!['e', 'x', 'i', 't']);
    assert("cd.."@ =~= seq!['c', 'd', '.', '.']);
    assert("cd"@ =~= seq!['c', 'd']);
}

/// The operands of `args` with `mark` between them, in one string.
fn operands_joined_by(args: &Vec<String>, mark: char) -> (text: String)
    ensures
        text@ == joined_by(operands(args.deep_view()), mark),
{
    let mut text = String::new();
    if args.len() < 2 {
        assert(operands(args.deep_view()).len() == 0);
        return text;
    }
    let ghost all = args.deep_view();
    text.append(args[1].as_str());
    assert(all.subrange(1, 2) =~= seq![args[1]@]);
    assert(text@ =~= joined_by(all.subrange(1, 2), mark));
    let mut i: usize = 2;
    while i < args.len()
        invariant
            2 <= i <= args.len(),
            all == args.deep_view(),
            text@ == joined_by(all.subrange(1, i as int), mark),
        decreases args.len() - i,
    {
        let ghost before = text@;
        push_char(&mut text, mark);
        text.append(args[i].as_str());
        proof {
            let taken = all.subrange(1, i as int + 1);
            assert(taken.drop_last() =~= all.subrange(1, i as int));
            assert(taken.last() == args[i as int]@);
            assert(text@ =~= before.push(mark) + args[i as int]@);
        }
        i = i + 1;
    }
    assert(all.subrange(1, i as int) =~= operands(all));
    text
}

/// Writes the prompt: the working directory `dir`, where the caller could
/// tell it, and then the marker `>`.
pub fn show_prompt<P>(cmd: &mut Cmd<P>, dir: Option<&str>)
    ensures
        final(cmd)@ == prompted(old(cmd)@, dir_text(dir)),
{
    if let Some(d) = dir {
        cmd.write_stdout(d);
    }
    proof {
        reveal_strlit(">");
        assert(">"@ =~= seq!['>']);
    }
    cmd.write_stdout(">");
}

/// Dispatches the command `parsed`, which was typed as `stdin`. What the
/// command does to the session is done; what it asks of the working directory
/// or of the operating system is handed back.
pub fn interpret_command<P>(cmd: &mut Cmd<P>, parsed: Command, stdin: String) -> (request:
    Dispatch)
    ensures
        final(cmd)@ == dispatched(old(cmd)@, parsed@),
        request@ == dispatch_request(parsed@, stdin@),
{
    proof {
        builtin_names();
    }
    if parsed.args.len() == 0 {
        return Dispatch::Done;
    }
    let name = parsed.args[0].as_str();
    assert(name@ == command_name(parsed@));
    if same_text(name, "argv") {
        let echo = operands_joined_by(&parsed.args, '&');
        cmd.write_stdout(echo.as_str());
        cmd.put_stdout('\n');
        Dispatch::Done
    } else if same_text(name, "cls") || same_text(name, "clear") {
        cmd.clear();
        Dispatch::Done
    } else if same_text(name, "exit") {
        cmd.exit();
        Dispatch::Done
    } else if same_text(name, "cd..") {
        Dispatch::ParentDir
    } else if same_text(name, "cd") {
        Dispatch::ChangeDir(operands_joined_by(&parsed.args, ' '))
    } else if name.is_empty() {
        Dispatch::Done
    } else {
        Dispatch::Spawn(stdin)
    }
}

/// Shows the prompt again on a line of its own, and after it the input that
/// was typed and not submitted yet.
pub fn end_of_command<P>(cmd: &mut Cmd<P>, dir: Option<&str>)
    ensures
        final(cmd)@ == prompted(old(cmd)@.write_stdout(seq!['\n']), dir_text(dir)).write_stdout(
            old(cmd)@.input,
        ),
{
    proof {
        reveal_strlit("\n");
        assert("\n"@ =~= seq!['\n']);
    }
    cmd.write_stdout("\n");
    show_prompt(cmd, dir);
    let pending = String::from_str(cmd.get_stdin());
    cmd.write_stdout(pending.as_str());
}

/// Submits the input line: a newline is written to the output, the input
/// line is emptied, and what was in it is split into arguments and
/// dispatched.
pub fn interpret<P>(cmd: &mut Cmd<P>) -> (submitted: Submitted)
    ensures
        submitted.line@ == old(cmd)@.input,
        submitted.forward == (old(cmd)@.child is Some),
        submitted.request@ == dispatch_request(tokenize(old(cmd)@.input), old(cmd)@.input),
        final(cmd)@ == dispatched(
            CmdView { input: Seq::empty(), ..old(cmd)@.put_stdout('\n') },
            tokenize(old(cmd)@.input),
        ),
{
    cmd.put_stdout('\n');
    let flushed = cmd.flush_stdin();
    let parsed = Command::parse(flushed.line.as_str());
    let line = flushed.line.clone();
    let request = interpret_command(cmd, parsed, flushed.line);
    Submitted { line, forward: flushed.forward, request }
}

/// Ends the handling of a submitted line, once its request was carried out:
/// unless a process was to be started, the prompt is written, with `dir` for
/// the working directory, and after it the line that was submitted.
pub fn conclude<P>(cmd: &mut Cmd<P>, submitted: &Submitted, dir: Option<&str>)
    ensures
        final(cmd)@ == concluded(
            old(cmd)@,
            submitted.request@,
            dir_text(dir),
            submitted.line@,
        ),
{
    if !submitted.request.spawns() {
        show_prompt(cmd, dir);
        cmd.write_stdout(submitted.line.as_str());
    }
}

} // verus!
