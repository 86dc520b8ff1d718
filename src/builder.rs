//! Construction of the argument list of one tool invocation.

use vstd::prelude::*;

verus! {

/// The character views of a list of owned strings.
pub open spec fn tokens_of(v: Seq<String>) -> Seq<Seq<char>> {
    v.map_values(|s: String| s@)
}

/// The tokens that a named parameter with an optional value stands for.
pub open spec fn optional_param_tokens(param: Seq<char>, value: Option<Seq<char>>) -> Seq<Seq<char>> {
    match value {
        Some(v) => seq![param, v],
        None => seq![],
    }
}

/// The tokens that an optional switch stands for: the bare name for `true`,
/// `name=false` for `false`, nothing when absent.
pub open spec fn bool_param_tokens(param: Seq<char>, value: Option<bool>) -> Seq<Seq<char>> {
    match value {
        Some(true) => seq![param],
        Some(false) => seq![param + "=false"@],
        None => seq![],
    }
}

/// The tokens that a conditional flag stands for.
pub open spec fn conditional_flag_tokens(flag: Seq<char>, condition: bool) -> Seq<Seq<char>> {
    if condition {
        seq![flag]
    } else {
        seq![]
    }
}

/// The tokens that scope a command to a subscription, when one is given.
pub open spec fn subscription_tokens(subscription: Option<Seq<char>>) -> Seq<Seq<char>> {
    optional_param_tokens("--subscription"@, subscription)
}

/// The character view of an optional borrowed string.
pub open spec fn opt_view(o: Option<&str>) -> Option<Seq<char>> {
    match o {
        Some(s) => Some(s@),
        None => None,
    }
}

/// The character view of an optional owned string.
pub open spec fn opt_string_view(o: Option<String>) -> Option<Seq<char>> {
    match o {
        Some(s) => Some(s@),
        None => None,
    }
}

/// Appending a string appends its characters to the token list.
pub proof fn lemma_push_token(v: Seq<String>, s: String)
    ensures
        tokens_of(v.push(s)) == tokens_of(v).push(s@),
{
    assert(tokens_of(v.push(s)) =~= tokens_of(v).push(s@));
}

/// The pieces of a token list joined in order.
pub open spec fn joined_parts(parts: Seq<Seq<Seq<char>>>) -> Seq<Seq<char>>
    decreases parts.len(),
{
    if parts.len() == 0 {
        seq![]
    } else {
        joined_parts(parts.drop_last()) + parts.last()
    }
}

/// Tokens come out in call order: when each builder call appends its own
/// tokens after the ones already there (as every method of
/// [`AzCommandBuilder`] does), the builder after a sequence of calls, started
/// empty, holds the tokens of the first call, then those of the second, and
/// so on, with nothing reordered, grouped or dropped.
pub proof fn lemma_tokens_in_call_order(states: Seq<Seq<Seq<char>>>, parts: Seq<Seq<Seq<char>>>)
    requires
        states.len() == parts.len() + 1,
        states[0] == Seq::<Seq<char>>::empty(),
        forall|i: int| 0 <= i < parts.len() ==> #[trigger] states[i + 1] == states[i] + parts[i],
    ensures
        states.last() == joined_parts(parts),
    decreases parts.len(),
{
    if parts.len() > 0 {
        let n = parts.len() as int;
        lemma_tokens_in_call_order(states.drop_last(), parts.drop_last());
        assert(states[n] == states[n - 1] + parts[n - 1]);
        assert(states.drop_last().last() == states[n - 1]);
    } else {
        assert(joined_parts(parts) =~= Seq::<Seq<char>>::empty());
    }
}

/// Formats an optional parameter as the tokens `[param, value]`, or none.
pub fn format_optional_param(param: &str, value: &Option<String>) -> (r: Vec<String>)
    ensures
        tokens_of(r@) == optional_param_tokens(param@, opt_string_view(*value)),
{
    let mut r: Vec<String> = Vec::new();
    match value {
        Some(v) => {
            r.push(param.to_string());
            r.push(v.clone());
        },
        None => {},
    }
    assert(tokens_of(r@) =~= optional_param_tokens(param@, opt_string_view(*value)));
    r
}

/// Formats an optional switch: the bare name for `true`, `name=false` for
/// `false`, no token when absent.
pub fn format_bool_param(param: &str, value: Option<bool>) -> (r: Vec<String>)
    ensures
        tokens_of(r@) == bool_param_tokens(param@, value),
{
    let mut r: Vec<String> = Vec::new();
    match value {
        Some(true) => {
            r.push(param.to_string());
        },
        Some(false) => {
            let s = param.to_string().concat("=false");
            r.push(s);
        },
        None => {},
    }
    assert(tokens_of(r@) =~= bool_param_tokens(param@, value));
    r
}

/// Accumulates the arguments of one invocation, in call order.
#[derive(Debug, Clone)]
pub struct AzCommandBuilder {
    args: Vec<String>,
}

impl View for AzCommandBuilder {
    type V = Seq<Seq<char>>;

    closed spec fn view(&self) -> Seq<Seq<char>> {
        tokens_of(self.args@)
    }
}

impl AzCommandBuilder {
    /// Creates a builder with no arguments.
    pub fn new() -> (r: Self)
        ensures
            r@ == Seq::<Seq<char>>::empty(),
    {
        let r = AzCommandBuilder { args: Vec::new() };
        assert(r@ =~= Seq::<Seq<char>>::empty());
        r
    }

    fn push_token(&mut self, s: String)
        ensures
            final(self)@ == old(self)@.push(s@),
    {
        proof {
            lemma_push_token(self.args@, s);
        }
        self.args.push(s);
    }

    /// Appends a subcommand.
    pub fn subcommand(self, cmd: &str) -> (r: Self)
        ensures
            r@ == self@.push(cmd@),
    {
        let mut b = self;
        b.push_token(cmd.to_string());
        b
    }

    /// Appends a parameter name followed by its value.
    pub fn param(self, param: &str, value: &str) -> (r: Self)
        ensures
            r@ == self@ + seq![param@, value@],
    {
        let mut b = self;
        let ghost before = b@;
        b.push_token(param.to_string());
        b.push_token(value.to_string());
        assert(b@ =~= before + seq![param@, value@]);
        b
    }

    /// Appends a parameter name and its value when a value is given.
    pub fn optional_param(self, param: &str, value: &Option<String>) -> (r: Self)
        ensures
            r@ == self@ + optional_param_tokens(param@, opt_string_view(*value)),
    {
        let mut b = self;
        let ghost before = b@;
        if let Some(v) = value {
            b.push_token(param.to_string());
            b.push_token(v.clone());
        }
        assert(b@ =~= before + optional_param_tokens(param@, opt_string_view(*value)));
        b
    }

    /// Appends a switch with no value.
    pub fn flag(self, flag: &str) -> (r: Self)
        ensures
            r@ == self@.push(flag@),
    {
        let mut b = self;
        b.push_token(flag.to_string());
        b
    }

    /// Appends a switch when the condition holds, nothing otherwise.
    pub fn conditional_flag(self, flag: &str, condition: bool) -> (r: Self)
        ensures
            r@ == self@ + conditional_flag_tokens(flag@, condition),
    {
        let mut b = self;
        let ghost before = b@;
        if condition {
            b.push_token(flag.to_string());
        }
        assert(b@ =~= before + conditional_flag_tokens(flag@, condition));
        b
    }

    /// Appends `--subscription <id>` when an id is given.
    pub fn subscription(self, subscription: Option<&str>) -> (r: Self)
        ensures
            r@ == self@ + subscription_tokens(opt_view(subscription)),
    {
        let mut b = self;
        let ghost before = b@;
        if let Some(sub) = subscription {
            b.push_token("--subscription".to_string());
            b.push_token(sub.to_string());
        }
        assert(b@ =~= before + subscription_tokens(opt_view(subscription)));
        b
    }

    /// The arguments, in the order in which they were added.
    pub fn build(self) -> (r: Vec<String>)
        ensures
            tokens_of(r@) == self@,
    {
        self.args
    }
}

impl Default for AzCommandBuilder {
    fn default() -> (r: Self)
        ensures
            r@ == Seq::<Seq<char>>::empty(),
    {
        AzCommandBuilder::new()
    }
}

} // verus!
