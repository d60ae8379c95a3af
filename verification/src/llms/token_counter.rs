//! Token totals per model.
use vstd::prelude::*;

use crate::keyed::{entry_keys, find_key, key_index, keys_distinct, lemma_key_index, lookup};
use crate::text::{decimal, decimal_string};

verus! {

/// The tokens of one model: prompt, output and reasoning.
#[derive(Clone, Copy, Debug, PartialEq, Eq, Structural)]
pub struct TokenCounts {
    pub prompt_tokens: u64,
    pub output_tokens: u64,
    pub reasoning_tokens: u64,
}

impl Default for TokenCounts {
    fn default() -> (r: TokenCounts)
        ensures
            r.prompt_tokens == 0 && r.output_tokens == 0 && r.reasoning_tokens == 0,
    {
        TokenCounts { prompt_tokens: 0, output_tokens: 0, reasoning_tokens: 0 }
    }
}

impl TokenCounts {
    /// The counts as a line of text.
    pub open spec fn spec_display(self) -> Seq<char> {
        "Prompt: "@ + decimal(self.prompt_tokens as nat) + ", Output: "@ + decimal(self.output_tokens as nat)
            + ", Reasoning: "@ + decimal(self.reasoning_tokens as nat)
    }

    /// The counts as a line of text (the `Display` form).
    pub fn to_display_string(&self) -> (r: String)
        ensures
            r@ == self.spec_display(),
    {
        let mut s = String::from_str("Prompt: ");
        s.append(decimal_string(self.prompt_tokens).as_str());
        s.append(", Output: ");
        s.append(decimal_string(self.output_tokens).as_str());
        s.append(", Reasoning: ");
        s.append(decimal_string(self.reasoning_tokens).as_str());
        s
    }
}

/// Token totals per model name, in the order the models first appeared.
#[derive(Debug)]
pub struct TokenCounter {
    counts: Vec<(String, TokenCounts)>,
}

/// The counts after adding to them.
pub open spec fn added(c: TokenCounts, prompt: u64, output: u64, reasoning: u64) -> TokenCounts {
    TokenCounts {
        prompt_tokens: (c.prompt_tokens + prompt) as u64,
        output_tokens: (c.output_tokens + output) as u64,
        reasoning_tokens: (c.reasoning_tokens + reasoning) as u64,
    }
}

pub open spec fn zero_counts() -> TokenCounts {
    TokenCounts { prompt_tokens: 0, output_tokens: 0, reasoning_tokens: 0 }
}

/// Whether the totals of `model` stay within `u64` when the counts are added.
pub open spec fn can_add(c: TokenCounter, model: Seq<char>, prompt: u64, output: u64, reasoning: u64) -> bool {
    &&& c.counts_of(model).prompt_tokens + prompt <= u64::MAX
    &&& c.counts_of(model).output_tokens + output <= u64::MAX
    &&& c.counts_of(model).reasoning_tokens + reasoning <= u64::MAX
}

/// `after` is `before` with the counts added to the totals of `model`: the
/// other models keep theirs, and `model` is among the models recorded.
pub open spec fn is_addition(
    before: TokenCounter,
    after: TokenCounter,
    model: Seq<char>,
    prompt: u64,
    output: u64,
    reasoning: u64,
) -> bool {
    &&& after.counts_of(model) == added(before.counts_of(model), prompt, output, reasoning)
    &&& forall|m: Seq<char>| m != model ==> #[trigger] after.counts_of(m) == before.counts_of(m)
    &&& forall|m: Seq<char>| #[trigger] after.models().contains(m) <==> (before.models().contains(m) || m == model)
}

/// Two additions to a model's totals add up: the totals grow by the sums, and
/// the other models' totals stay.
pub proof fn lemma_additions_add_up(
    a: TokenCounter,
    b: TokenCounter,
    c: TokenCounter,
    model: Seq<char>,
    p1: u64,
    o1: u64,
    r1: u64,
    p2: u64,
    o2: u64,
    r2: u64,
)
    requires
        is_addition(a, b, model, p1, o1, r1),
        is_addition(b, c, model, p2, o2, r2),
        can_add(a, model, p1, o1, r1),
        can_add(b, model, p2, o2, r2),
    ensures
        c.counts_of(model).prompt_tokens == a.counts_of(model).prompt_tokens + p1 + p2,
        c.counts_of(model).output_tokens == a.counts_of(model).output_tokens + o1 + o2,
        c.counts_of(model).reasoning_tokens == a.counts_of(model).reasoning_tokens + r1 + r2,
        forall|m: Seq<char>| m != model ==> #[trigger] c.counts_of(m) == a.counts_of(m),
{
    assert forall|m: Seq<char>| m != model implies #[trigger] c.counts_of(m) == a.counts_of(m) by {
        assert(b.counts_of(m) == a.counts_of(m));
    }
}

impl TokenCounter {
    /// No model has two entries.
    #[verifier::type_invariant]
    spec fn one_entry_per_model(self) -> bool {
        keys_distinct(entry_keys(self.counts@))
    }

    /// The totals, one entry per model.
    pub closed spec fn entries(&self) -> Seq<(String, TokenCounts)> {
        self.counts@
    }

    /// The totals of a model: zero when nothing was recorded for it.
    pub open spec fn counts_of(&self, model: Seq<char>) -> TokenCounts {
        match lookup(self.entries(), model) {
            Some(c) => c,
            None => zero_counts(),
        }
    }

    /// The model names recorded so far.
    pub open spec fn models(&self) -> Seq<Seq<char>> {
        entry_keys(self.entries())
    }

    pub fn new() -> (r: TokenCounter)
        ensures
            r.entries().len() == 0,
    {
        TokenCounter { counts: Vec::new() }
    }

    /// Adds tokens to a model's totals.
    pub fn add_counts(&mut self, model_name: &str, prompt_tokens: u64, output_tokens: u64, reasoning_tokens: u64)
        requires
            can_add(*old(self), model_name@, prompt_tokens, output_tokens, reasoning_tokens),
        ensures
            is_addition(*old(self), *final(self), model_name@, prompt_tokens, output_tokens, reasoning_tokens),
    {
        proof {
            use_type_invariant(&*self);
        }
        let ghost old_entries = self.counts@;
        let ghost keys = entry_keys(old_entries);
        proof {
            lemma_key_index(keys, model_name@);
        }
        let mut counts: Vec<(String, TokenCounts)> = Vec::new();
        std::mem::swap(&mut counts, &mut self.counts);
        match find_key(&counts, model_name) {
            Some(i) => {
                let c = counts[i].1;
                let nc = TokenCounts {
                    prompt_tokens: c.prompt_tokens + prompt_tokens,
                    output_tokens: c.output_tokens + output_tokens,
                    reasoning_tokens: c.reasoning_tokens + reasoning_tokens,
                };
                counts.set(i, (String::from_str(model_name), nc));
                proof {
                    assert(entry_keys(counts@) =~= keys);
                }
                self.counts = counts;
                proof {
                    assert forall|m: Seq<char>| m != model_name@ implies #[trigger] self.counts_of(m) == old(
                        self,
                    ).counts_of(m) by {
                        lemma_key_index(keys, m);
                    }
                }
            },
            None => {
                let nc = TokenCounts { prompt_tokens, output_tokens, reasoning_tokens };
                counts.push((String::from_str(model_name), nc));
                let ghost nk = entry_keys(counts@);
                proof {
                    assert(nk =~= keys.push(model_name@));
                    assert forall|a: int, b: int| 0 <= a < nk.len() && 0 <= b < nk.len() && a != b implies nk[a]
                        != nk[b] by {
                        if a == keys.len() {
                            assert(keys[b] != model_name@);
                        } else if b == keys.len() {
                            assert(keys[a] != model_name@);
                        }
                    }
                }
                let i = counts.len() - 1;
                self.counts = counts;
                proof {
                    crate::keyed::lemma_key_index_unique(nk, model_name@, i as int);
                    assert forall|m: Seq<char>| m != model_name@ implies #[trigger] self.counts_of(m) == old(
                        self,
                    ).counts_of(m) by {
                        lemma_key_index(keys, m);
                        lemma_key_index(nk, m);
                        if key_index(keys, m) < keys.len() {
                            crate::keyed::lemma_key_index_unique(nk, m, key_index(keys, m));
                        } else {
                            crate::keyed::lemma_key_index_unique(nk, m, nk.len() as int);
                        }
                    }
                    assert forall|m: Seq<char>| #[trigger] self.models().contains(m) <==> (old(self).models().contains(m)
                        || m == model_name@) by {
                        if self.models().contains(m) {
                            let j = choose|j: int| 0 <= j < nk.len() && nk[j] == m;
                            if j < keys.len() {
                                assert(keys[j] == m);
                            }
                        }
                        if old(self).models().contains(m) {
                            let j = choose|j: int| 0 <= j < keys.len() && keys[j] == m;
                            assert(nk[j] == m);
                        }
                        if m == model_name@ {
                            assert(nk[i as int] == m);
                        }
                    }
                }
            },
        }
    }

    /// A copy of the totals, one entry per model.
    pub fn get_counts(&self) -> (r: Vec<(String, TokenCounts)>)
        ensures
            keys_distinct(entry_keys(r@)),
            r@.len() == self.entries().len(),
            forall|i: int|
                0 <= i < r@.len() ==> (#[trigger] r@[i]).0@ == self.entries()[i].0@ && r@[i].1 == self.entries()[i].1,
    {
        proof {
            use_type_invariant(self);
        }
        let mut out: Vec<(String, TokenCounts)> = Vec::new();
        let n = self.counts.len();
        for i in 0..n
            invariant
                n == self.counts@.len(),
                out@.len() == i,
                forall|j: int|
                    0 <= j < i ==> (#[trigger] out@[j]).0@ == self.counts@[j].0@ && out@[j].1 == self.counts@[j].1,
        {
            out.push((String::from_str(self.counts[i].0.as_str()), self.counts[i].1));
        }
        proof {
            assert(entry_keys(out@) =~= entry_keys(self.counts@));
        }
        out
    }

    /// The totals of one model, when it has any.
    pub fn get(&self, model_name: &str) -> (r: Option<TokenCounts>)
        ensures
            r == lookup(self.entries(), model_name@),
    {
        match find_key(&self.counts, model_name) {
            Some(i) => Some(self.counts[i].1),
            None => None,
        }
    }

    /// The text of the totals, one line per model (the `Display` form).
    pub fn to_display_string(&self) -> (r: String)
        ensures
            r@ == counter_display(self.entries()),
    {
        if self.counts.len() == 0 {
            return String::from_str("Token Counts: (No tokens recorded)");
        }
        let mut s = String::from_str("Token Counts:\n");
        let n = self.counts.len();
        for i in 0..n
            invariant
                n == self.counts@.len(),
                n > 0,
                s@ == "Token Counts:\n"@ + count_lines(self.counts@.take(i as int)),
        {
            assert(self.counts@.take(i + 1).drop_last() =~= self.counts@.take(i as int));
            s.append("  ");
            s.append(self.counts[i].0.as_str());
            s.append(": ");
            s.append(self.counts[i].1.to_display_string().as_str());
            s.append("\n");
        }
        assert(self.counts@.take(n as int) =~= self.counts@);
        s
    }
}

/// One line per model: its name and its counts.
pub open spec fn count_lines(entries: Seq<(String, TokenCounts)>) -> Seq<char>
    decreases entries.len(),
{
    if entries.len() == 0 {
        Seq::empty()
    } else {
        count_lines(entries.drop_last()) + "  "@ + entries.last().0@ + ": "@ + entries.last().1.spec_display() + "\n"@
    }
}

/// The text of a counter.
pub open spec fn counter_display(entries: Seq<(String, TokenCounts)>) -> Seq<char> {
    if entries.len() == 0 {
        "Token Counts: (No tokens recorded)"@
    } else {
        "Token Counts:\n"@ + count_lines(entries)
    }
}

fn zero_counts_exec() -> (r: TokenCounts)
    ensures
        r == zero_counts(),
{
    TokenCounts { prompt_tokens: 0, output_tokens: 0, reasoning_tokens: 0 }
}

} // verus!
