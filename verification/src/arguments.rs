//! Gathering of the command-line tokens into the program's arguments.
//!
//! The tokens are read from left to right. A flag sets a field or switches
//! the list that the following plain tokens go to; the two lists are joined
//! with single spaces at the end.

use vstd::prelude::*;
use vstd::string::*;
use crate::text::{join_strings, join_with, parse_port, port_value, views};

verus! {

/// Names the model: the next token is its name.
pub const MODEL_FLAG: &'static str = "--model";

/// Names the port of the service: the next token is its number.
pub const PORT_FLAG: &'static str = "--port";

/// Starts a run of system text.
pub const SYSTEM_FLAG: &'static str = "--system";

/// Names the address of the service: the next token is its base URL.
pub const URL_FLAG: &'static str = "--url";

/// Starts a run of user text.
pub const USER_FLAG: &'static str = "--user";

/// The list that plain tokens are appended to.
#[derive(Clone, Copy, Debug, PartialEq, Eq, Structural)]
pub enum Mode {
    User,
    System,
}

/// The flags that the token list may hold.
#[derive(Clone, Copy, Debug, PartialEq, Eq, Structural)]
pub enum Flag {
    System,
    User,
    Model,
    Url,
    Port,
}

/// The flag that `token` spells, if any.
pub open spec fn flag_of(token: Seq<char>) -> Option<Flag> {
    if token == SYSTEM_FLAG@ {
        Some(Flag::System)
    } else if token == USER_FLAG@ {
        Some(Flag::User)
    } else if token == MODEL_FLAG@ {
        Some(Flag::Model)
    } else if token == URL_FLAG@ {
        Some(Flag::Url)
    } else if token == PORT_FLAG@ {
        Some(Flag::Port)
    } else {
        None
    }
}

/// Tells which flag `token` spells, if any.
pub fn classify(token: &str) -> (flag: Option<Flag>)
    ensures
        flag == flag_of(token@),
{
    let token = String::from_str(token);
    if token == String::from_str(SYSTEM_FLAG) {
        Some(Flag::System)
    } else if token == String::from_str(USER_FLAG) {
        Some(Flag::User)
    } else if token == String::from_str(MODEL_FLAG) {
        Some(Flag::Model)
    } else if token == String::from_str(URL_FLAG) {
        Some(Flag::Url)
    } else if token == String::from_str(PORT_FLAG) {
        Some(Flag::Port)
    } else {
        None
    }
}

/// The characters of an optional string.
pub open spec fn text_of(value: Option<String>) -> Option<Seq<char>> {
    match value {
        Some(s) => Some(s@),
        None => None,
    }
}

/// The characters of an optional borrowed string.
pub open spec fn text_of_ref(value: Option<&String>) -> Option<Seq<char>> {
    match value {
        Some(s) => Some(s@),
        None => None,
    }
}

/// What the program was asked to do.
#[derive(Clone, Debug)]
pub struct Arguments {
    pub user: String,
    pub system: String,
    pub model: Option<String>,
    pub url: Option<String>,
    pub port: Option<u16>,
}

/// The mathematical content of [`Arguments`].
pub struct ArgumentsView {
    pub user: Seq<char>,
    pub system: Seq<char>,
    pub model: Option<Seq<char>>,
    pub url: Option<Seq<char>>,
    pub port: Option<u16>,
}

impl View for Arguments {
    type V = ArgumentsView;

    open spec fn view(&self) -> ArgumentsView {
        ArgumentsView {
            user: self.user@,
            system: self.system@,
            model: text_of(self.model),
            url: text_of(self.url),
            port: self.port,
        }
    }
}

/// What has been gathered after some of the tokens were read.
pub struct Gathered {
    pub mode: Mode,
    pub user: Seq<Seq<char>>,
    pub system: Seq<Seq<char>>,
    pub model: Option<Seq<char>>,
    pub url: Option<Seq<char>>,
    pub port: Option<u16>,
}

impl Gathered {
    /// Nothing gathered yet: plain tokens go to the user list.
    pub open spec fn start() -> Gathered {
        Gathered {
            mode: Mode::User,
            user: Seq::empty(),
            system: Seq::empty(),
            model: None,
            url: None,
            port: None,
        }
    }

    /// The state after `token` was read, where `next` is the token that
    /// follows it, if there is one.
    ///
    /// A plain token goes to the list of the active mode. `--system` and
    /// `--user` switch the mode and take `next` into their list as it is,
    /// even where it spells a flag. `--model` and `--url` take `next` as
    /// their value, or the empty text where nothing follows. `--port` takes
    /// `next` as a number and leaves the port unset where it writes none.
    pub open spec fn step(self, token: Seq<char>, next: Option<Seq<char>>) -> Gathered {
        match flag_of(token) {
            Some(Flag::System) => Gathered {
                mode: Mode::System,
                system: match next {
                    Some(value) => self.system.push(value),
                    None => self.system,
                },
                ..self
            },
            Some(Flag::User) => Gathered {
                mode: Mode::User,
                user: match next {
                    Some(value) => self.user.push(value),
                    None => self.user,
                },
                ..self
            },
            Some(Flag::Model) => Gathered {
                model: match next {
                    Some(value) => Some(value),
                    None => Some(Seq::empty()),
                },
                ..self
            },
            Some(Flag::Url) => Gathered {
                url: match next {
                    Some(value) => Some(value),
                    None => Some(Seq::empty()),
                },
                ..self
            },
            Some(Flag::Port) => Gathered {
                port: match next {
                    Some(value) => port_value(value),
                    None => self.port,
                },
                ..self
            },
            None => match self.mode {
                Mode::User => Gathered { user: self.user.push(token), ..self },
                Mode::System => Gathered { system: self.system.push(token), ..self },
            },
        }
    }

    /// The arguments that the gathered lists and fields make.
    pub open spec fn finish(self) -> ArgumentsView {
        ArgumentsView {
            user: join_with(self.user, " "@),
            system: join_with(self.system, " "@),
            model: self.model,
            url: self.url,
            port: self.port,
        }
    }
}

/// How many tokens reading `token` uses up: a flag takes the token that
/// follows it along, where there is one.
pub open spec fn width(token: Seq<char>, has_next: bool) -> int {
    if flag_of(token).is_some() && has_next {
        2
    } else {
        1
    }
}

/// The token at `i + 1`, if there is one.
pub open spec fn token_after(tokens: Seq<Seq<char>>, i: int) -> Option<Seq<char>> {
    if i + 1 < tokens.len() {
        Some(tokens[i + 1])
    } else {
        None
    }
}

/// The state after the tokens from `i` on were read, starting in `state`.
pub open spec fn gather(tokens: Seq<Seq<char>>, i: int, state: Gathered) -> Gathered
    decreases tokens.len() - i,
{
    if 0 <= i < tokens.len() {
        gather(
            tokens,
            i + width(tokens[i], i + 1 < tokens.len()),
            state.step(tokens[i], token_after(tokens, i)),
        )
    } else {
        state
    }
}

/// The state after a whole token list was read.
pub open spec fn parsed_state(tokens: Seq<Seq<char>>) -> Gathered {
    gather(tokens, 0, Gathered::start())
}

/// The arguments that a whole token list makes.
pub open spec fn parsed(tokens: Seq<Seq<char>>) -> ArgumentsView {
    parsed_state(tokens).finish()
}

/// The gathering of the tokens, one token (and its value) at a time.
pub struct Assembler {
    pub mode: Mode,
    pub user: Vec<String>,
    pub system: Vec<String>,
    pub model: Option<String>,
    pub url: Option<String>,
    pub port: Option<u16>,
}

impl View for Assembler {
    type V = Gathered;

    open spec fn view(&self) -> Gathered {
        Gathered {
            mode: self.mode,
            user: views(self.user@),
            system: views(self.system@),
            model: text_of(self.model),
            url: text_of(self.url),
            port: self.port,
        }
    }
}

impl Assembler {
    /// An assembler that has read nothing.
    pub fn new() -> (assembler: Assembler)
        ensures
            assembler@ == Gathered::start(),
    {
        let assembler = Assembler {
            mode: Mode::User,
            user: Vec::new(),
            system: Vec::new(),
            model: None,
            url: None,
            port: None,
        };
        proof {
            assert(views(assembler.user@) =~= Seq::empty());
            assert(views(assembler.system@) =~= Seq::empty());
        }
        assembler
    }

    /// Reads `token`, with the token that follows it in `next`, and returns
    /// how many tokens were used up.
    pub fn feed(&mut self, token: &String, next: Option<&String>) -> (used: usize)
        ensures
            final(self)@ == old(self)@.step(token@, text_of_ref(next)),
            used == width(token@, next.is_some()),
    {
        let flag = classify(token.as_str());
        match flag {
            Some(Flag::System) => {
                self.mode = Mode::System;
                if let Some(value) = next {
                    self.system.push(value.clone());
                    proof {
                        assert(views(self.system@) =~= views(old(self).system@).push(value@));
                    }
                }
            },
            Some(Flag::User) => {
                self.mode = Mode::User;
                if let Some(value) = next {
                    self.user.push(value.clone());
                    proof {
                        assert(views(self.user@) =~= views(old(self).user@).push(value@));
                    }
                }
            },
            Some(Flag::Model) => {
                self.model = match next {
                    Some(value) => Some(value.clone()),
                    None => Some(String::new()),
                };
            },
            Some(Flag::Url) => {
                self.url = match next {
                    Some(value) => Some(value.clone()),
                    None => Some(String::new()),
                };
            },
            Some(Flag::Port) => {
                if let Some(value) = next {
                    self.port = parse_port(value.as_str());
                }
            },
            None => {
                match self.mode {
                    Mode::User => {
                        self.user.push(token.clone());
                        proof {
                            assert(views(self.user@) =~= views(old(self).user@).push(token@));
                        }
                    },
                    Mode::System => {
                        self.system.push(token.clone());
                        proof {
                            assert(views(self.system@) =~= views(old(self).system@).push(token@));
                        }
                    },
                }
            },
        }
        if flag.is_some() && next.is_some() {
            2
        } else {
            1
        }
    }

    /// Joins the two lists and hands out the arguments.
    pub fn finish(self) -> (arguments: Arguments)
        ensures
            arguments@ == self@.finish(),
    {
        Arguments {
            user: join_strings(&self.user, " "),
            system: join_strings(&self.system, " "),
            model: self.model,
            url: self.url,
            port: self.port,
        }
    }
}

/// Gathers the command-line tokens (without the program's name) into the
/// program's arguments.
pub fn get_parsed_arguments(tokens: &Vec<String>) -> (arguments: Arguments)
    ensures
        arguments@ == parsed(views(tokens@)),
{
    let mut assembler = Assembler::new();
    let mut i: usize = 0;
    while i < tokens.len()
        invariant
            i <= tokens.len(),
            gather(views(tokens@), i as int, assembler@) == parsed_state(views(tokens@)),
        decreases tokens.len() - i,
    {
        let next: Option<&String> = if i + 1 < tokens.len() {
            Some(&tokens[i + 1])
        } else {
            None
        };
        let used = assembler.feed(&tokens[i], next);
        i = i + used;
    }
    assembler.finish()
}

/// From any point on, a run of plain tokens goes whole, and in order, to the
/// list of the active mode; nothing else changes.
pub proof fn lemma_gather_plain(tokens: Seq<Seq<char>>, i: int, state: Gathered)
    requires
        0 <= i <= tokens.len(),
        forall|j: int| i <= j < tokens.len() ==> flag_of(#[trigger] tokens[j]) is None,
    ensures
        gather(tokens, i, state) == (match state.mode {
            Mode::User => Gathered {
                user: state.user + tokens.subrange(i, tokens.len() as int),
                ..state
            },
            Mode::System => Gathered {
                system: state.system + tokens.subrange(i, tokens.len() as int),
                ..state
            },
        }),
    decreases tokens.len() - i,
{
    let rest = tokens.subrange(i, tokens.len() as int);
    if i == tokens.len() {
        assert(state.user + rest =~= state.user);
        assert(state.system + rest =~= state.system);
    } else {
        let after = state.step(tokens[i], token_after(tokens, i));
        let later = tokens.subrange(i + 1, tokens.len() as int);
        assert(flag_of(tokens[i]) is None);
        lemma_gather_plain(tokens, i + 1, after);
        assert(state.user.push(tokens[i]) + later =~= state.user + rest);
        assert(state.system.push(tokens[i]) + later =~= state.system + rest);
    }
}

/// The flags are five different words.
pub proof fn lemma_flags_differ()
    ensures
        flag_of(SYSTEM_FLAG@) == Some(Flag::System),
        flag_of(USER_FLAG@) == Some(Flag::User),
        flag_of(MODEL_FLAG@) == Some(Flag::Model),
        flag_of(URL_FLAG@) == Some(Flag::Url),
        flag_of(PORT_FLAG@) == Some(Flag::Port),
{
    reveal_strlit("--system");
    reveal_strlit("--user");
    reveal_strlit("--model");
    reveal_strlit("--url");
    reveal_strlit("--port");
    assert(SYSTEM_FLAG@.len() == 8);
    assert(USER_FLAG@.len() == 6);
    assert(MODEL_FLAG@.len() == 7);
    assert(URL_FLAG@.len() == 5);
    assert(PORT_FLAG@.len() == 6);
    assert(USER_FLAG@[2] != PORT_FLAG@[2]);
}

/// A token list that is `--user` followed by one token of any kind and then
/// plain tokens gives those tokens, joined by single spaces, as the user
/// text, and sets nothing else.
pub proof fn lemma_user_flag_collects(rest: Seq<Seq<char>>)
    requires
        rest.len() > 0,
        forall|j: int| 1 <= j < rest.len() ==> flag_of(#[trigger] rest[j]) is None,
    ensures
        parsed(seq![USER_FLAG@] + rest) == (ArgumentsView {
            user: join_with(rest, " "@),
            system: Seq::empty(),
            model: None,
            url: None,
            port: None,
        }),
{
    let tokens = seq![USER_FLAG@] + rest;
    lemma_flags_differ();
    assert(tokens[0] == USER_FLAG@);
    assert(tokens[1] == rest[0]);
    let first = Gathered::start().step(tokens[0], token_after(tokens, 0));
    assert(first.user =~= seq![rest[0]]);
    assert(gather(tokens, 0, Gathered::start()) == gather(tokens, 2, first));
    assert forall|j: int| 2 <= j < tokens.len() implies flag_of(#[trigger] tokens[j]) is None by {
        assert(tokens[j] == rest[j - 1]);
    }
    lemma_gather_plain(tokens, 2, first);
    assert(first.user + tokens.subrange(2, tokens.len() as int) =~= rest);
}

/// While no token spells `--system`, the system list stays empty and plain
/// tokens keep going to the user list.
pub proof fn lemma_gather_without_system_flag(tokens: Seq<Seq<char>>, i: int, state: Gathered)
    requires
        0 <= i,
        state.mode == Mode::User,
        state.system.len() == 0,
        forall|j: int| 0 <= j < tokens.len() ==> #[trigger] tokens[j] != SYSTEM_FLAG@,
    ensures
        gather(tokens, i, state).mode == Mode::User,
        gather(tokens, i, state).system.len() == 0,
    decreases tokens.len() - i,
{
    if i < tokens.len() {
        assert(tokens[i] != SYSTEM_FLAG@);
        lemma_gather_without_system_flag(
            tokens,
            i + width(tokens[i], i + 1 < tokens.len()),
            state.step(tokens[i], token_after(tokens, i)),
        );
    }
}

/// A token list in which no token spells `--system` gives an empty system
/// text.
pub proof fn lemma_system_needs_flag(tokens: Seq<Seq<char>>)
    requires
        forall|j: int| 0 <= j < tokens.len() ==> #[trigger] tokens[j] != SYSTEM_FLAG@,
    ensures
        parsed(tokens).system.len() == 0,
{
    lemma_gather_without_system_flag(tokens, 0, Gathered::start());
}

/// While no token spells `--port`, the port stays as it is.
pub proof fn lemma_gather_without_port_flag(tokens: Seq<Seq<char>>, i: int, state: Gathered)
    requires
        0 <= i,
        forall|j: int| i <= j < tokens.len() ==> #[trigger] tokens[j] != PORT_FLAG@,
    ensures
        gather(tokens, i, state).port == state.port,
    decreases tokens.len() - i,
{
    if i < tokens.len() {
        assert(tokens[i] != PORT_FLAG@);
        lemma_gather_without_port_flag(
            tokens,
            i + width(tokens[i], i + 1 < tokens.len()),
            state.step(tokens[i], token_after(tokens, i)),
        );
    }
}

/// A token list that starts with `--port` and a value that writes no port,
/// and names no other port, leaves the port unset.
pub proof fn lemma_unparseable_port_unset(value: Seq<char>, rest: Seq<Seq<char>>)
    requires
        port_value(value) is None,
        forall|j: int| 0 <= j < rest.len() ==> #[trigger] rest[j] != PORT_FLAG@,
    ensures
        parsed(seq![PORT_FLAG@, value] + rest).port is None,
{
    let tokens = seq![PORT_FLAG@, value] + rest;
    lemma_flags_differ();
    assert(tokens[0] == PORT_FLAG@);
    assert(tokens[1] == value);
    let first = Gathered::start().step(tokens[0], token_after(tokens, 0));
    assert(first.port is None);
    assert(parsed_state(tokens) == gather(tokens, 2, first));
    assert forall|j: int| 2 <= j < tokens.len() implies #[trigger] tokens[j] != PORT_FLAG@ by {
        assert(tokens[j] == rest[j - 2]);
    }
    lemma_gather_without_port_flag(tokens, 2, first);
}

} // verus!
