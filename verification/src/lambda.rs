//! Qualified AWS Lambda function names: parsing and printing of ARNs.
//!
//! A qualified ARN has eight colon-separated components:
//! `arn:<partition>:lambda:<region>:<account>:function:<name>:<qualifier>`.
//! Parsing rejects malformed input with a specific error and never
//! panics; printing a parsed ARN returns the input exactly.

use vstd::prelude::*;

verus! {

use crate::base62::string_push;

/// A parsed, qualified Lambda ARN.
#[derive(Debug, Clone, PartialEq, Eq)]
pub struct LambdaARN {
    pub partition: String,
    pub region: String,
    pub account_id: String,
    pub name: String,
    pub version: String,
}

/// Why a string is not a qualified Lambda ARN.
#[derive(Debug, Clone, Copy, PartialEq, Eq, Structural)]
pub enum InvalidLambdaARN {
    /// A qualified ARN must have 8 components delimited by `:`.
    InvalidFormat,
    /// A qualified ARN needs a version or alias suffix.
    MissingVersionSuffix,
    /// The first component must be `arn`.
    InvalidPrefix,
    /// The ARN must refer to a `function` resource.
    InvalidResourceType,
    /// Partition, region, account id, name and version must be non-empty.
    InvalidComponent,
    /// The ARN must be for the lambda service.
    InvalidService,
    /// No valid URI can be formed for this ARN.
    InvalidURI,
}

/// The characters of the five stored components joined in ARN form.
pub open spec fn arn_string(a: LambdaARN) -> Seq<char> {
    "arn"@ + seq![':'] + a.partition@ + seq![':'] + "lambda"@ + seq![':'] + a.region@ + seq![':']
        + a.account_id@ + seq![':'] + "function"@ + seq![':'] + a.name@ + seq![':'] + a.version@
}

/// A well-formed ARN: no component before the qualifier holds a
/// separator, and none of the required components is empty.
pub open spec fn arn_wf(a: LambdaARN) -> bool {
    &&& !a.partition@.contains(':')
    &&& !a.region@.contains(':')
    &&& !a.account_id@.contains(':')
    &&& !a.name@.contains(':')
    &&& a.partition@.len() > 0
    &&& a.region@.len() > 0
    &&& a.account_id@.len() > 0
    &&& a.name@.len() > 0
    &&& a.version@.len() > 0
}

/// The index of the first separator at or after `from`, or -1.
pub open spec fn colon_from(s: Seq<char>, from: int) -> int
    decreases s.len() - from,
{
    if from < 0 || from >= s.len() {
        -1
    } else if s[from] == ':' {
        from
    } else {
        colon_from(s, from + 1)
    }
}

/// Splits `s` on separators into at most `limit` components; the last
/// component keeps any further separators.
pub open spec fn split_colons(s: Seq<char>, limit: nat) -> Seq<Seq<char>>
    decreases limit,
{
    if limit <= 1 {
        seq![s]
    } else {
        let p = colon_from(s, 0);
        if p < 0 {
            seq![s]
        } else {
            seq![s.take(p)] + split_colons(s.skip(p + 1), (limit - 1) as nat)
        }
    }
}

/// The split components interleaved with separators again.
pub open spec fn join_colons(parts: Seq<Seq<char>>) -> Seq<char>
    decreases parts.len(),
{
    if parts.len() == 0 {
        Seq::empty()
    } else if parts.len() == 1 {
        parts[0]
    } else {
        parts[0] + seq![':'] + join_colons(parts.drop_first())
    }
}

/// What parsing a string as a qualified ARN yields, for every input.
pub enum ArnParse {
    /// The components of a well-formed qualified ARN.
    Parsed {
        partition: Seq<char>,
        region: Seq<char>,
        account_id: Seq<char>,
        name: Seq<char>,
        version: Seq<char>,
    },
    /// Fewer than seven separators: not eight components.
    BadFormat,
    /// Eight components are there but the qualifier is missing or empty.
    MissingVersion,
    /// The first component is not `arn`.
    BadPrefix,
    /// The sixth component is not `function`.
    BadResourceType,
    /// The third component is not `lambda`.
    BadService,
    /// A required component is empty.
    EmptyComponent,
}

/// The full parse of a qualified ARN, including which error is reported
/// on every rejected input, in the order the checks are made.
pub open spec fn parse_arn(s: Seq<char>) -> ArnParse {
    let parts = split_colons(s, 8);
    if parts.len() < 7 {
        ArnParse::BadFormat
    } else if parts.len() == 7 {
        ArnParse::MissingVersion
    } else if parts[0] != "arn"@ {
        ArnParse::BadPrefix
    } else if parts[5] != "function"@ {
        ArnParse::BadResourceType
    } else if parts[2] != "lambda"@ {
        ArnParse::BadService
    } else if parts[1].len() == 0 || parts[3].len() == 0 || parts[4].len() == 0 || parts[6].len()
        == 0 {
        ArnParse::EmptyComponent
    } else if parts[7].len() == 0 {
        ArnParse::MissingVersion
    } else {
        ArnParse::Parsed {
            partition: parts[1],
            region: parts[3],
            account_id: parts[4],
            name: parts[6],
            version: parts[7],
        }
    }
}

/// Whether an executable parse result reports exactly the spec-level
/// outcome.
pub open spec fn arn_reported(r: Result<LambdaARN, InvalidLambdaARN>, o: ArnParse) -> bool {
    match o {
        ArnParse::Parsed { partition, region, account_id, name, version } => {
            &&& r matches Ok(a)
            &&& a.partition@ == partition
            &&& a.region@ == region
            &&& a.account_id@ == account_id
            &&& a.name@ == name
            &&& a.version@ == version
        },
        ArnParse::BadFormat => r == Err::<LambdaARN, InvalidLambdaARN>(
            InvalidLambdaARN::InvalidFormat,
        ),
        ArnParse::MissingVersion => r == Err::<LambdaARN, InvalidLambdaARN>(
            InvalidLambdaARN::MissingVersionSuffix,
        ),
        ArnParse::BadPrefix => r == Err::<LambdaARN, InvalidLambdaARN>(
            InvalidLambdaARN::InvalidPrefix,
        ),
        ArnParse::BadResourceType => r == Err::<LambdaARN, InvalidLambdaARN>(
            InvalidLambdaARN::InvalidResourceType,
        ),
        ArnParse::BadService => r == Err::<LambdaARN, InvalidLambdaARN>(
            InvalidLambdaARN::InvalidService,
        ),
        ArnParse::EmptyComponent => r == Err::<LambdaARN, InvalidLambdaARN>(
            InvalidLambdaARN::InvalidComponent,
        ),
    }
}

/// The subranges a list of index pairs selects.
pub open spec fn ranges_of(s: Seq<char>, parts: Seq<(usize, usize)>) -> Seq<Seq<char>> {
    Seq::new(parts.len(), |k: int| s.subrange(parts[k].0 as int, parts[k].1 as int))
}

/// A separator at `q` with none in `[from, q)` is the first one.
proof fn lemma_colon_from_exact(s: Seq<char>, from: int, q: int)
    requires
        0 <= from <= q < s.len(),
        forall|t: int| from <= t < q ==> s[t] != ':',
        s[q] == ':',
    ensures
        colon_from(s, from) == q,
    decreases q - from,
{
    if from < q {
        lemma_colon_from_exact(s, from + 1, q);
    }
}

/// Without a separator at or after `from` the search fails.
proof fn lemma_colon_from_none(s: Seq<char>, from: int)
    requires
        0 <= from <= s.len(),
        forall|t: int| from <= t < s.len() ==> s[t] != ':',
    ensures
        colon_from(s, from) == -1,
    decreases s.len() - from,
{
    if from < s.len() {
        lemma_colon_from_none(s, from + 1);
    }
}

/// A found separator index is in range, is a separator, and nothing
/// before it is one.
proof fn lemma_colon_found_is_first(s: Seq<char>, from: int, p: int)
    requires
        0 <= from <= s.len(),
        colon_from(s, from) == p,
        p >= 0,
    ensures
        from <= p < s.len(),
        s[p] == ':',
        forall|t: int| from <= t < p ==> s[t] != ':',
    decreases s.len() - from,
{
    if from < s.len() && s[from] != ':' {
        lemma_colon_found_is_first(s, from + 1, p);
    }
}

/// Components before the last hold no separator.
proof fn lemma_split_components_clean(s: Seq<char>, limit: nat, k: int)
    requires
        0 <= k < split_colons(s, limit).len() - 1,
    ensures
        !split_colons(s, limit)[k].contains(':'),
    decreases limit,
{
    if limit > 1 {
        let p = colon_from(s, 0);
        if p >= 0 {
            lemma_colon_found_is_first(s, 0, p);
            if k == 0 {
                let head = s.take(p);
                if head.contains(':') {
                    let j = choose|j: int| 0 <= j < head.len() && head[j] == ':';
                    assert(s[j] == ':');
                }
            } else {
                lemma_split_components_clean(s.skip(p + 1), (limit - 1) as nat, k - 1);
            }
        }
    }
}

/// Joining the split components restores the string.
proof fn lemma_split_join(s: Seq<char>, limit: nat)
    requires
        limit >= 1,
    ensures
        join_colons(split_colons(s, limit)) == s,
    decreases limit,
{
    let parts = split_colons(s, limit);
    if limit <= 1 {
        assert(join_colons(parts) =~= s);
    } else {
        let p = colon_from(s, 0);
        if p < 0 {
            assert(join_colons(parts) =~= s);
        } else {
            lemma_colon_found_is_first(s, 0, p);
            lemma_split_join(s.skip(p + 1), (limit - 1) as nat);
            let rest = split_colons(s.skip(p + 1), (limit - 1) as nat);
            assert(parts.drop_first() =~= rest);
            assert(join_colons(parts) == s.take(p) + seq![':'] + join_colons(rest));
            assert(s.take(p) + seq![':'] + s.skip(p + 1) =~= s);
        }
    }
}

/// Eight joined components written out in full.
proof fn lemma_join_unfold(parts: Seq<Seq<char>>)
    requires
        parts.len() == 8,
    ensures
        join_colons(parts) == parts[0] + seq![':'] + parts[1] + seq![':'] + parts[2] + seq![':']
            + parts[3] + seq![':'] + parts[4] + seq![':'] + parts[5] + seq![':'] + parts[6] + seq![
            ':',
        ] + parts[7],
{
    let p1 = parts.drop_first();
    let p2 = p1.drop_first();
    let p3 = p2.drop_first();
    let p4 = p3.drop_first();
    let p5 = p4.drop_first();
    let p6 = p5.drop_first();
    let p7 = p6.drop_first();
    assert(p7.len() == 1);
    assert(join_colons(parts) == parts[0] + seq![':'] + join_colons(p1));
    assert(join_colons(p1) == p1[0] + seq![':'] + join_colons(p2));
    assert(join_colons(p2) == p2[0] + seq![':'] + join_colons(p3));
    assert(join_colons(p3) == p3[0] + seq![':'] + join_colons(p4));
    assert(join_colons(p4) == p4[0] + seq![':'] + join_colons(p5));
    assert(join_colons(p5) == p5[0] + seq![':'] + join_colons(p6));
    assert(join_colons(p6) == p6[0] + seq![':'] + join_colons(p7));
    assert(join_colons(parts) =~= parts[0] + seq![':'] + parts[1] + seq![':'] + parts[2] + seq![
        ':',
    ] + parts[3] + seq![':'] + parts[4] + seq![':'] + parts[5] + seq![':'] + parts[6] + seq![':']
        + parts[7]);
}

impl LambdaARN {
    /// The region the function lives in.
    pub fn region(&self) -> (r: &str)
        ensures
            r@ == self.region@,
    {
        self.region.as_str()
    }

    /// Prints the ARN in its canonical colon-separated form.
    pub fn to_string(&self) -> (r: String)
        ensures
            r@ == arn_string(*self),
    {
        let mut out = String::new();
        out.append("arn");
        string_push(&mut out, ':');
        out.append(self.partition.as_str());
        string_push(&mut out, ':');
        out.append("lambda");
        string_push(&mut out, ':');
        out.append(self.region.as_str());
        string_push(&mut out, ':');
        out.append(self.account_id.as_str());
        string_push(&mut out, ':');
        out.append("function");
        string_push(&mut out, ':');
        out.append(self.name.as_str());
        string_push(&mut out, ':');
        out.append(self.version.as_str());
        proof {
            assert(out@ =~= arn_string(*self));
        }
        out
    }

    /// Parses a qualified ARN, reporting for every input exactly the
    /// outcome that `parse_arn` gives it; an accepted input prints back
    /// to itself.
    pub fn from_str(arn: &str) -> (r: Result<Self, InvalidLambdaARN>)
        ensures
            arn_reported(r, parse_arn(arn@)),
            r matches Ok(a) ==> arn_string(a) == arn@,
    {
        let ghost s = arn@;
        let n = arn.unicode_len();
        // collect the boundaries of the first seven components
        let mut parts: Vec<(usize, usize)> = Vec::new();
        let mut start: usize = 0;
        let mut i: usize = 0;
        proof {
            assert(s.skip(0) =~= s);
            assert(ranges_of(s, parts@) =~= Seq::<Seq<char>>::empty());
            assert(ranges_of(s, parts@) + split_colons(s.skip(0), 8) =~= split_colons(s, 8));
        }
        while i < n && parts.len() < 7
            invariant
                0 <= start <= i <= n,
                n == s.len(),
                s == arn@,
                parts@.len() <= 7,
                forall|k: int|
                    0 <= k < parts@.len() ==> 0 <= (#[trigger] parts@[k]).0 <= parts@[k].1 <= n,
                forall|t: int| start <= t < i ==> s[t] != ':',
                split_colons(s, 8) =~= ranges_of(s, parts@) + split_colons(
                    s.skip(start as int),
                    (8 - parts@.len()) as nat,
                ),
            decreases n - i,
        {
            if arn.get_char(i) == ':' {
                proof {
                    let rem = s.skip(start as int);
                    let limit = (8 - parts@.len()) as nat;
                    assert(rem[i - start] == ':');
                    assert forall|t: int| 0 <= t < i - start implies rem[t] != ':' by {
                        assert(s[start + t] != ':');
                    }
                    lemma_colon_from_exact(rem, 0, i - start);
                    assert(rem.take(i - start) =~= s.subrange(start as int, i as int));
                    assert(rem.skip(i - start + 1) =~= s.skip(i + 1));
                    assert(ranges_of(s, parts@.push((start, i))) =~= ranges_of(s, parts@).push(
                        s.subrange(start as int, i as int),
                    ));
                }
                parts.push((start, i));
                start = i + 1;
            }
            i = i + 1;
        }
        proof {
            if parts@.len() < 7 {
                let rem = s.skip(start as int);
                assert forall|t: int| 0 <= t < rem.len() implies rem[t] != ':' by {
                    assert(s[start + t] != ':');
                }
                lemma_colon_from_none(rem, 0);
                assert(split_colons(rem, (8 - parts@.len()) as nat) =~= seq![rem]);
            } else {
                assert(split_colons(s.skip(start as int), 1) =~= seq![s.skip(start as int)]);
            }
        }
        let ghost parts8 = split_colons(s, 8);
        if parts.len() < 7 {
            if parts.len() == 6 {
                // exactly seven components: everything but the qualifier
                return Err(InvalidLambdaARN::MissingVersionSuffix);
            }
            // fewer components still: not an ARN shape at all
            return Err(InvalidLambdaARN::InvalidFormat);
        }
        proof {
            assert(parts8.len() == 8);
            assert forall|k: int| 0 <= k < 7 implies parts8[k] == s.subrange(
                (#[trigger] parts@[k]).0 as int,
                parts@[k].1 as int,
            ) by {
                assert(ranges_of(s, parts@)[k] == s.subrange(
                    parts@[k].0 as int,
                    parts@[k].1 as int,
                ));
            }
            assert(parts8[7] =~= s.subrange(start as int, n as int));
        }
        let prefix = arn.substring_char(parts[0].0, parts[0].1);
        if !str_eq(prefix, "arn") {
            return Err(InvalidLambdaARN::InvalidPrefix);
        }
        let resource_type = arn.substring_char(parts[5].0, parts[5].1);
        if !str_eq(resource_type, "function") {
            return Err(InvalidLambdaARN::InvalidResourceType);
        }
        let service = arn.substring_char(parts[2].0, parts[2].1);
        if !str_eq(service, "lambda") {
            return Err(InvalidLambdaARN::InvalidService);
        }
        let partition = arn.substring_char(parts[1].0, parts[1].1);
        let region = arn.substring_char(parts[3].0, parts[3].1);
        let account_id = arn.substring_char(parts[4].0, parts[4].1);
        let name = arn.substring_char(parts[6].0, parts[6].1);
        if partition.unicode_len() == 0 || region.unicode_len() == 0 || account_id.unicode_len()
            == 0 || name.unicode_len() == 0 {
            return Err(InvalidLambdaARN::InvalidComponent);
        }
        if start >= n {
            // the qualifier is present but empty
            return Err(InvalidLambdaARN::MissingVersionSuffix);
        }
        let version = arn.substring_char(start, n);
        let lambda = LambdaARN {
            partition: partition.to_owned(),
            region: region.to_owned(),
            account_id: account_id.to_owned(),
            name: name.to_owned(),
            version: version.to_owned(),
        };
        proof {
            lemma_split_join(s, 8);
            lemma_join_unfold(parts8);
            assert(arn_string(lambda) =~= join_colons(parts8));
        }
        Ok(lambda)
    }
}

/// Whether two string slices hold the same characters.
fn str_eq(a: &str, b: &str) -> (r: bool)
    ensures
        r == (a@ == b@),
{
    let na = a.unicode_len();
    let nb = b.unicode_len();
    if na != nb {
        return false;
    }
    let mut i: usize = 0;
    while i < na
        invariant
            0 <= i <= na,
            na == a@.len() == b@.len(),
            forall|j: int| 0 <= j < i ==> a@[j] == b@[j],
        decreases na - i,
    {
        if a.get_char(i) != b.get_char(i) {
            return false;
        }
        i = i + 1;
    }
    proof {
        assert(a@ =~= b@);
    }
    true
}

/// The three fixed components hold no separator.
proof fn lemma_fixed_components_clean()
    ensures
        !"arn"@.contains(':'),
        !"lambda"@.contains(':'),
        !"function"@.contains(':'),
{
    reveal_strlit("arn");
    reveal_strlit("lambda");
    reveal_strlit("function");
    assert(!"arn"@.contains(':')) by {
        if "arn"@.contains(':') {
            let j = choose|j: int| 0 <= j < "arn"@.len() && "arn"@[j] == ':';
        }
    }
    assert(!"lambda"@.contains(':')) by {
        if "lambda"@.contains(':') {
            let j = choose|j: int| 0 <= j < "lambda"@.len() && "lambda"@[j] == ':';
        }
    }
    assert(!"function"@.contains(':')) by {
        if "function"@.contains(':') {
            let j = choose|j: int| 0 <= j < "function"@.len() && "function"@[j] == ':';
        }
    }
}

/// Splitting `head ++ ":" ++ tail` with a separator-free head peels off
/// exactly the head.
proof fn lemma_peel(s: Seq<char>, head: Seq<char>, tail: Seq<char>)
    requires
        !head.contains(':'),
        s =~= head + seq![':'] + tail,
    ensures
        colon_from(s, 0) == head.len(),
        s.take(head.len() as int) =~= head,
        s.skip(head.len() as int + 1) =~= tail,
{
    assert(s[head.len() as int] == ':');
    assert forall|t: int| 0 <= t < head.len() implies s[t] != ':' by {
        assert(s[t] == head[t]);
        if s[t] == ':' {
            assert(head.contains(':'));
        }
    }
    lemma_colon_from_exact(s, 0, head.len() as int);
}

/// Printing a well-formed ARN and parsing it back yields exactly its own
/// components: the printable form is lossless.
#[verifier::rlimit(30)]
pub proof fn lemma_arn_roundtrip(a: LambdaARN)
    requires
        arn_wf(a),
    ensures
        parse_arn(arn_string(a)) == (ArnParse::Parsed {
            partition: a.partition@,
            region: a.region@,
            account_id: a.account_id@,
            name: a.name@,
            version: a.version@,
        }),
{
    lemma_fixed_components_clean();
    reveal_strlit("arn");
    reveal_strlit("lambda");
    reveal_strlit("function");
    let s0 = arn_string(a);
    let s1 = a.partition@ + seq![':'] + "lambda"@ + seq![':'] + a.region@ + seq![':']
        + a.account_id@ + seq![':'] + "function"@ + seq![':'] + a.name@ + seq![':'] + a.version@;
    let s2 = "lambda"@ + seq![':'] + a.region@ + seq![':'] + a.account_id@ + seq![':']
        + "function"@ + seq![':'] + a.name@ + seq![':'] + a.version@;
    let s3 = a.region@ + seq![':'] + a.account_id@ + seq![':'] + "function"@ + seq![':'] + a.name@
        + seq![':'] + a.version@;
    let s4 = a.account_id@ + seq![':'] + "function"@ + seq![':'] + a.name@ + seq![':'] + a.version@;
    let s5 = "function"@ + seq![':'] + a.name@ + seq![':'] + a.version@;
    let s6 = a.name@ + seq![':'] + a.version@;
    let s7 = a.version@;
    lemma_peel(s0, "arn"@, s1);
    lemma_peel(s1, a.partition@, s2);
    lemma_peel(s2, "lambda"@, s3);
    lemma_peel(s3, a.region@, s4);
    lemma_peel(s4, a.account_id@, s5);
    lemma_peel(s5, "function"@, s6);
    lemma_peel(s6, a.name@, s7);
    assert(split_colons(s7, 1) =~= seq![s7]);
    assert(split_colons(s6, 2) =~= seq![a.name@, s7]);
    assert(split_colons(s5, 3) =~= seq!["function"@, a.name@, s7]);
    assert(split_colons(s4, 4) =~= seq![a.account_id@, "function"@, a.name@, s7]);
    assert(split_colons(s3, 5) =~= seq![a.region@, a.account_id@, "function"@, a.name@, s7]);
    assert(split_colons(s2, 6) =~= seq![
        "lambda"@,
        a.region@,
        a.account_id@,
        "function"@,
        a.name@,
        s7,
    ]);
    assert(split_colons(s1, 7) =~= seq![
        a.partition@,
        "lambda"@,
        a.region@,
        a.account_id@,
        "function"@,
        a.name@,
        s7,
    ]);
    assert(split_colons(s0, 8) =~= seq![
        "arn"@,
        a.partition@,
        "lambda"@,
        a.region@,
        a.account_id@,
        "function"@,
        a.name@,
        s7,
    ]);
}

} // verus!
