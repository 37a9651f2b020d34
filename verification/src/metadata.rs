use vstd::prelude::*;

use vstd::string::StringExecFns;

verus! {

/// The decimal digit character for `d`.
pub open spec fn spec_digit(d: int) -> char
    recommends
        0 <= d < 10,
{
    if d == 0 {
        '0'
    } else if d == 1 {
        '1'
    } else if d == 2 {
        '2'
    } else if d == 3 {
        '3'
    } else if d == 4 {
        '4'
    } else if d == 5 {
        '5'
    } else if d == 6 {
        '6'
    } else if d == 7 {
        '7'
    } else if d == 8 {
        '8'
    } else {
        '9'
    }
}

/// The decimal rendering of `n`, most significant digit first, with no
/// leading zeros except for the single digit of zero itself.
pub open spec fn spec_decimal(n: int) -> Seq<char>
    recommends
        n >= 0,
    decreases n,
{
    if n < 10 {
        seq![spec_digit(n)]
    } else {
        spec_decimal(n / 10) + seq![spec_digit(n % 10)]
    }
}

/// The one-character string for a single decimal digit.
fn digit_str(d: u128) -> (s: &'static str)
    requires
        d < 10,
    ensures
        s@ =~= seq![spec_digit(d as int)],
{
    proof {
        reveal_strlit("0");
        reveal_strlit("1");
        reveal_strlit("2");
        reveal_strlit("3");
        reveal_strlit("4");
        reveal_strlit("5");
        reveal_strlit("6");
        reveal_strlit("7");
        reveal_strlit("8");
        reveal_strlit("9");
    }
    if d == 0 {
        "0"
    } else if d == 1 {
        "1"
    } else if d == 2 {
        "2"
    } else if d == 3 {
        "3"
    } else if d == 4 {
        "4"
    } else if d == 5 {
        "5"
    } else if d == 6 {
        "6"
    } else if d == 7 {
        "7"
    } else if d == 8 {
        "8"
    } else {
        "9"
    }
}

/// The metadata payload for one token: a JSON object whose name embeds the
/// token id in decimal, with a fixed description, image path and attribute
/// list.
pub open spec fn spec_token_uri(token_id: int) -> Seq<char>
    recommends
        token_id >= 0,
{
    "{\"name\":\"Top Signals Researcher #"@ + spec_decimal(token_id)
        + "\",\"description\":\"NFT awarded to users who have analyzed 50+ tokens in the Top Signals Browser.\",\"image\":\"/researcher-nft.svg\",\"attributes\":[{\"trait_type\":\"Role\",\"value\":\"Researcher\"},{\"trait_type\":\"Analytics Level\",\"value\":\"Expert\"}]}"@
}

/// Builds the metadata payload of `spec_token_uri` for `token_id`.
pub fn token_metadata(token_id: u128) -> (s: String)
    ensures
        s@ =~= spec_token_uri(token_id as int),
{
    let mut s = String::from_str("{\"name\":\"Top Signals Researcher #");
    s.append(u128_to_decimal(token_id).as_str());
    s.append(
        "\",\"description\":\"NFT awarded to users who have analyzed 50+ tokens in the Top Signals Browser.\",\"image\":\"/researcher-nft.svg\",\"attributes\":[{\"trait_type\":\"Role\",\"value\":\"Researcher\"},{\"trait_type\":\"Analytics Level\",\"value\":\"Expert\"}]}",
    );
    s
}

/// Renders `n` in decimal.
pub fn u128_to_decimal(n: u128) -> (s: String)
    ensures
        s@ =~= spec_decimal(n as int),
    decreases n,
{
    if n < 10 {
        String::from_str(digit_str(n))
    } else {
        let mut s = u128_to_decimal(n / 10);
        proof {
            assert((n / 10) as int == n as int / 10) by (nonlinear_arith);
            assert((n % 10) as int == n as int % 10) by (nonlinear_arith);
        }
        s.append(digit_str(n % 10));
        s
    }
}

} // verus!
