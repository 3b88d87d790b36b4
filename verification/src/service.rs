use vstd::prelude::*;

use crate::config::{AgentConfig, AgentConfigView};

verus! {

// ---------------------------------------------------------------------------
// Decimal numbers
// ---------------------------------------------------------------------------

pub open spec fn is_digit(c: char) -> bool {
    '0' <= c && c <= '9'
}

pub open spec fn digit_value(c: char) -> int {
    c as int - '0' as int
}

pub open spec fn all_digits(d: Seq<char>) -> bool {
    forall|i: int| 0 <= i < d.len() ==> is_digit(#[trigger] d[i])
}

/// The number that a sequence of decimal digits spells.
pub open spec fn decimal_value(d: Seq<char>) -> int
    decreases d.len(),
{
    if d.len() == 0 {
        0
    } else {
        decimal_value(d.drop_last()) * 10 + digit_value(d.last())
    }
}

/// The digits of a number's text: all of it, less one leading '+'.
pub open spec fn digits_of(s: Seq<char>) -> Seq<char> {
    if s.len() > 0 && s[0] == '+' {
        s.drop_first()
    } else {
        s
    }
}

/// The `u64` that the text spells: an optional '+' then at least one decimal
/// digit and nothing else, of a value that fits.
pub open spec fn spec_parse_u64(s: Seq<char>) -> Option<u64> {
    let d = digits_of(s);
    if d.len() > 0 && all_digits(d) && decimal_value(d) <= u64::MAX {
        Some(decimal_value(d) as u64)
    } else {
        None
    }
}

proof fn lemma_decimal_value_nonneg(d: Seq<char>)
    requires
        all_digits(d),
    ensures
        decimal_value(d) >= 0,
    decreases d.len(),
{
    if d.len() > 0 {
        assert(all_digits(d.drop_last())) by {
            assert forall|i: int| 0 <= i < d.drop_last().len() implies is_digit(
                #[trigger] d.drop_last()[i],
            ) by {
                assert(d.drop_last()[i] == d[i]);
            }
        }
        lemma_decimal_value_nonneg(d.drop_last());
        assert(is_digit(d[d.len() - 1]));
    }
}

/// A prefix of a run of digits spells no more than the whole run.
proof fn lemma_decimal_value_prefix(d: Seq<char>, j: int)
    requires
        all_digits(d),
        0 <= j <= d.len(),
    ensures
        decimal_value(d.take(j)) <= decimal_value(d),
    decreases d.len(),
{
    if j == d.len() {
        assert(d.take(j) =~= d);
    } else {
        let p = d.drop_last();
        assert(all_digits(p)) by {
            assert forall|i: int| 0 <= i < p.len() implies is_digit(#[trigger] p[i]) by {
                assert(p[i] == d[i]);
            }
        }
        lemma_decimal_value_prefix(p, j);
        assert(p.take(j) =~= d.take(j));
        lemma_decimal_value_nonneg(p);
        assert(is_digit(d[d.len() - 1]));
    }
}

/// Reads a number as `str::parse::<u64>` does: an optional '+' and one or more
/// decimal digits, whose value fits in a `u64`; anything else is `None`.
pub fn parse_u64(s: &str) -> (r: Option<u64>)
    ensures
        r == spec_parse_u64(s@),
        r is Some <==> (digits_of(s@).len() > 0 && all_digits(digits_of(s@)) && decimal_value(
            digits_of(s@),
        ) <= u64::MAX),
        r matches Some(n) ==> n as int == decimal_value(digits_of(s@)),
{
    let n = s.unicode_len();
    let start: usize = if n > 0 && s.get_char(0) == '+' {
        1
    } else {
        0
    };
    let ghost d = digits_of(s@);
    proof {
        assert(d =~= s@.subrange(start as int, n as int));
    }
    if start == n {
        return None;
    }
    let mut value: u64 = 0;
    let mut i: usize = start;
    while i < n
        invariant
            start <= i <= n,
            n == s@.len(),
            d == s@.subrange(start as int, n as int),
            d == digits_of(s@),
            all_digits(d.take(i - start)),
            value as int == decimal_value(d.take(i - start)),
        decreases n - i,
    {
        let c = s.get_char(i);
        let j: Ghost<int> = Ghost(i - start);
        assert(d[j@] == c);
        if !('0' <= c && c <= '9') {
            assert(!all_digits(d)) by {
                assert(!is_digit(d[j@]));
            }
            return None;
        }
        let digit = (c as u32 - '0' as u32) as u64;
        proof {
            assert(d.take(j@ + 1).drop_last() =~= d.take(j@));
            assert(d.take(j@ + 1).last() == c);
            assert(all_digits(d.take(j@ + 1))) by {
                assert forall|k: int| 0 <= k < j@ + 1 implies is_digit(#[trigger] d.take(j@ + 1)[k]) by {
                    if k < j@ {
                        assert(d.take(j@ + 1)[k] == d.take(j@)[k]);
                    }
                }
            }
        }
        if value > (u64::MAX - digit) / 10 {
            proof {
                let m = (u64::MAX - digit) as int;
                assert(value * 10 + digit > m + digit) by (nonlinear_arith)
                    requires
                        value > m / 10,
                        m >= 0,
                ;
                assert(decimal_value(d.take(j@ + 1)) > u64::MAX);
                if all_digits(d) {
                    lemma_decimal_value_prefix(d, j@ + 1);
                }
            }
            return None;
        }
        value = value * 10 + digit;
        i = i + 1;
    }
    proof {
        assert(d.take(n - start) =~= d);
    }
    Some(value)
}

// ---------------------------------------------------------------------------
// Comma-separated lists
// ---------------------------------------------------------------------------

/// The pieces of `s` between the commas, in order; the empty text is one empty piece.
pub open spec fn split_commas(s: Seq<char>) -> Seq<Seq<char>>
    decreases s.len(),
{
    if s.len() == 0 {
        seq![Seq::<char>::empty()]
    } else {
        let pieces = split_commas(s.drop_last());
        if s.last() == ',' {
            pieces.push(Seq::<char>::empty())
        } else {
            pieces.update(pieces.len() - 1, pieces.last().push(s.last()))
        }
    }
}

/// The pieces put back together, with a ',' between each two.
pub open spec fn join_commas(pieces: Seq<Seq<char>>) -> Seq<char>
    decreases pieces.len(),
{
    if pieces.len() == 0 {
        Seq::<char>::empty()
    } else if pieces.len() == 1 {
        pieces[0]
    } else {
        join_commas(pieces.drop_last()) + seq![','] + pieces.last()
    }
}

pub open spec fn comma_free(p: Seq<char>) -> bool {
    forall|j: int| 0 <= j < p.len() ==> p[j] != ','
}

/// Splitting loses nothing and leaves no comma: the pieces, none of which
/// holds a ',', joined with ',' give back the text.
pub proof fn lemma_split_commas_rejoins(s: Seq<char>)
    ensures
        split_commas(s).len() >= 1,
        join_commas(split_commas(s)) == s,
        forall|i: int| 0 <= i < split_commas(s).len() ==> comma_free(#[trigger] split_commas(s)[i]),
    decreases s.len(),
{
    if s.len() > 0 {
        let t = s.drop_last();
        let c = s.last();
        let p = split_commas(t);
        lemma_split_commas_rejoins(t);
        assert(t.push(c) =~= s);
        if c == ',' {
            let q = p.push(Seq::<char>::empty());
            assert(q.drop_last() =~= p);
            assert(join_commas(q) =~= s);
            assert forall|i: int| 0 <= i < q.len() implies comma_free(#[trigger] q[i]) by {
                if i < p.len() {
                    assert(q[i] == p[i]);
                }
            }
        } else {
            let q = p.update(p.len() - 1, p.last().push(c));
            if p.len() == 1 {
                assert(join_commas(q) =~= s);
            } else {
                assert(q.drop_last() =~= p.drop_last());
                assert(join_commas(q) =~= s);
            }
            assert forall|i: int| 0 <= i < q.len() implies comma_free(#[trigger] q[i]) by {
                if i < p.len() - 1 {
                    assert(q[i] == p[i]);
                } else {
                    assert(comma_free(p[p.len() - 1]));
                    assert forall|j: int| 0 <= j < q[i].len() implies q[i][j] != ',' by {
                        if j < p.last().len() {
                            assert(q[i][j] == p.last()[j]);
                        }
                    }
                }
            }
        }
    }
}

/// A number reads as the value of its digits, with or without a leading '+'.
pub proof fn lemma_parse_u64_reads_digits(d: Seq<char>)
    requires
        d.len() > 0,
        all_digits(d),
        decimal_value(d) <= u64::MAX,
    ensures
        spec_parse_u64(d) == Some(decimal_value(d) as u64),
        spec_parse_u64(seq!['+'] + d) == Some(decimal_value(d) as u64),
{
    assert((seq!['+'] + d).drop_first() =~= d);
    assert(d[0] != '+') by {
        assert(is_digit(d[0]));
    }
}

/// Text with no digits, or with anything but digits after an optional '+', is no number.
pub proof fn lemma_parse_u64_rejects(s: Seq<char>, i: int)
    requires
        0 <= i < digits_of(s).len(),
        !is_digit(digits_of(s)[i]),
    ensures
        spec_parse_u64(s) is None,
        spec_parse_u64(Seq::<char>::empty()) is None,
        spec_parse_u64(seq!['+']) is None,
{
    assert(seq!['+'].drop_first() =~= Seq::<char>::empty());
}

/// A single digit reads as its own value, and one more digit at the end
/// multiplies the value by ten and adds that digit.
pub proof fn lemma_decimal_value_steps(d: Seq<char>, c: char)
    requires
        is_digit(c),
    ensures
        decimal_value(seq![c]) == digit_value(c),
        decimal_value(d.push(c)) == 10 * decimal_value(d) + digit_value(c),
{
    assert(seq![c].drop_last() =~= Seq::<char>::empty());
    assert(decimal_value(Seq::<char>::empty()) == 0);
    assert(seq![c].last() == c);
    assert(decimal_value(seq![c]) == decimal_value(seq![c].drop_last()) * 10 + digit_value(c));
    assert(d.push(c).drop_last() =~= d);
}

proof fn lemma_split_commas_nonempty(s: Seq<char>)
    ensures
        split_commas(s).len() >= 1,
    decreases s.len(),
{
    if s.len() > 0 {
        lemma_split_commas_nonempty(s.drop_last());
    }
}

/// Splits `s` at every ',' as `str::split(',')` does.
pub fn split_commas_exec(s: &str) -> (r: Vec<String>)
    ensures
        r.deep_view() == split_commas(s@),
        r@.len() >= 1,
        join_commas(r.deep_view()) == s@,
        forall|i: int| 0 <= i < r@.len() ==> comma_free(#[trigger] r@[i]@),
{
    let n = s.unicode_len();
    let mut pieces: Vec<String> = Vec::new();
    let mut start: usize = 0;
    let mut i: usize = 0;
    proof {
        assert(s@.take(0) =~= Seq::<char>::empty());
        assert(pieces.deep_view().push(s@.subrange(0, 0)) =~= split_commas(s@.take(0)));
    }
    while i < n
        invariant
            start <= i <= n,
            n == s@.len(),
            pieces.deep_view().push(s@.subrange(start as int, i as int)) == split_commas(
                s@.take(i as int),
            ),
        decreases n - i,
    {
        let c = s.get_char(i);
        let ghost before = pieces.deep_view();
        let ghost old_pieces = pieces@;
        proof {
            assert(s@.take(i + 1).drop_last() =~= s@.take(i as int));
            assert(s@.take(i + 1).last() == c);
            lemma_split_commas_nonempty(s@.take(i as int));
        }
        if c == ',' {
            let ghost old_start = start;
            let piece = s.substring_char(start, i).to_owned();
            pieces.push(piece);
            start = i + 1;
            proof {
                assert(pieces@ == old_pieces.push(piece));
                assert forall|k: int| 0 <= k < before.len() implies #[trigger] pieces.deep_view()[k] == before[k] by {
                    assert(pieces@[k] == old_pieces[k]);
                }
                assert(pieces.deep_view()[before.len() as int] == s@.subrange(old_start as int, i as int));
                assert(pieces.deep_view() =~= before.push(s@.subrange(old_start as int, i as int)));
                assert(s@.subrange(start as int, i + 1) =~= Seq::<char>::empty());
                assert(pieces.deep_view().push(s@.subrange(start as int, i + 1)) =~= split_commas(
                    s@.take(i + 1),
                ));
            }
        } else {
            proof {
                assert(s@.subrange(start as int, i + 1) =~= s@.subrange(start as int, i as int).push(c));
                assert(pieces.deep_view().push(s@.subrange(start as int, i + 1)) =~= split_commas(
                    s@.take(i as int),
                ).update(before.len() as int, s@.subrange(start as int, i as int).push(c)));
            }
        }
        i = i + 1;
    }
    let last = s.substring_char(start, n).to_owned();
    let ghost before = pieces.deep_view();
    pieces.push(last);
    proof {
        assert(s@.take(n as int) =~= s@);
        assert(pieces.deep_view() =~= before.push(s@.subrange(start as int, n as int)));
    }
    proof {
        lemma_split_commas_rejoins(s@);
        assert forall|i: int| 0 <= i < pieces@.len() implies comma_free(#[trigger] pieces@[i]@) by {
            assert(pieces.deep_view()[i] == pieces@[i]@);
        }
    }
    pieces
}

// ---------------------------------------------------------------------------
// The configuration of the service binary
// ---------------------------------------------------------------------------

/// The configuration of the agent running as a service, from the values of its
/// settings (`None` where a setting is absent): the agent id defaults to
/// "agent-001", the collector URL to "http://localhost:3000", the interval to
/// 30 seconds (also when its value is not a number), and the targets, a
/// comma-separated list, to ["8.8.8.8"].
pub open spec fn spec_service_config(
    agent_id: Option<Seq<char>>,
    collector_url: Option<Seq<char>>,
    interval_secs: Option<Seq<char>>,
    ping_targets: Option<Seq<char>>,
) -> AgentConfigView {
    AgentConfigView {
        agent_id: match agent_id {
            Some(v) => v,
            None => "agent-001"@,
        },
        collector_url: match collector_url {
            Some(v) => v,
            None => "http://localhost:3000"@,
        },
        interval_secs: match interval_secs {
            Some(v) => match spec_parse_u64(v) {
                Some(n) => n,
                None => 30,
            },
            None => 30,
        },
        ping_targets: match ping_targets {
            Some(v) => split_commas(v),
            None => seq!["8.8.8.8"@],
        },
    }
}

/// Each setting that is present is taken as given (the interval when it reads
/// as a number); each one that is absent takes its default.
pub proof fn lemma_service_config_settings(
    agent_id: Option<Seq<char>>,
    collector_url: Option<Seq<char>>,
    interval_secs: Option<Seq<char>>,
    ping_targets: Option<Seq<char>>,
)
    ensures
        ({
            let c = spec_service_config(agent_id, collector_url, interval_secs, ping_targets);
            &&& agent_id matches Some(v) ==> c.agent_id == v
            &&& (agent_id is None) ==> c.agent_id == "agent-001"@
            &&& collector_url matches Some(v) ==> c.collector_url == v
            &&& (collector_url is None) ==> c.collector_url == "http://localhost:3000"@
            &&& (match interval_secs {
                Some(v) => match spec_parse_u64(v) {
                    Some(n) => c.interval_secs == n,
                    None => c.interval_secs == 30,
                },
                None => c.interval_secs == 30,
            })
            &&& ping_targets matches Some(v) ==> join_commas(c.ping_targets) == v
            &&& (ping_targets is None) ==> c.ping_targets == seq!["8.8.8.8"@]
        }),
{
    if let Some(v) = ping_targets {
        lemma_split_commas_rejoins(v);
    }
}

pub open spec fn opt_view(o: Option<String>) -> Option<Seq<char>> {
    match o {
        Some(s) => Some(s@),
        None => None,
    }
}

/// Builds the service's configuration from its settings.
pub fn service_config(
    agent_id: Option<String>,
    collector_url: Option<String>,
    interval_secs: Option<String>,
    ping_targets: Option<String>,
) -> (r: AgentConfig)
    ensures
        r@ == spec_service_config(
            opt_view(agent_id),
            opt_view(collector_url),
            opt_view(interval_secs),
            opt_view(ping_targets),
        ),
        agent_id matches Some(v) ==> r.agent_id@ == v@,
        (agent_id is None) ==> r.agent_id@ == "agent-001"@,
        collector_url matches Some(v) ==> r.collector_url@ == v@,
        (collector_url is None) ==> r.collector_url@ == "http://localhost:3000"@,
        match interval_secs {
            Some(v) => match spec_parse_u64(v@) {
                Some(n) => r.interval_secs == n,
                None => r.interval_secs == 30,
            },
            None => r.interval_secs == 30,
        },
        ping_targets matches Some(v) ==> join_commas(r.ping_targets.deep_view()) == v@,
        ping_targets matches Some(v) ==> r.ping_targets.deep_view() == split_commas(v@),
        (ping_targets is Some) ==> forall|i: int|
            0 <= i < r.ping_targets@.len() ==> comma_free(#[trigger] r.ping_targets@[i]@),
        (ping_targets is None) ==> r.ping_targets@.len() == 1 && r.ping_targets@[0]@ == "8.8.8.8"@,
{
    let agent_id = match agent_id {
        Some(v) => v,
        None => "agent-001".to_owned(),
    };
    let collector_url = match collector_url {
        Some(v) => v,
        None => "http://localhost:3000".to_owned(),
    };
    let interval_secs = match interval_secs {
        Some(v) => match parse_u64(v.as_str()) {
            Some(n) => n,
            None => 30,
        },
        None => 30,
    };
    let ping_targets = match ping_targets {
        Some(v) => split_commas_exec(v.as_str()),
        None => {
            let t = vec!["8.8.8.8".to_owned()];
            assert(t.deep_view() =~= seq!["8.8.8.8"@]);
            t
        },
    };
    AgentConfig { interval_secs, ping_targets, collector_url, agent_id }
}

} // verus!
