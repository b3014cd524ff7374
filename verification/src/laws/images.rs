//! What an image becomes, and what asking a controller needs.

use vstd::prelude::*;

use crate::screen::{
    base64_char, base64_text, connection_answer, controller_obstacle, image_answer, image_url,
    ConnectionStatus,
};
use crate::state::StateView;

verus! {

/// An instance is connected exactly when it has a controller and that says so.
/// Without an instance there is no answer.
pub proof fn law_connections_are_the_controllers<C, R, T>(
    s: StateView<C, R, T>,
    id: Seq<char>,
    connected: bool,
)
    ensures
        connection_answer(s, id, connected) == Ok::<ConnectionStatus, Seq<char>>(
            ConnectionStatus::Connected,
        ) <==> s.instances.contains_key(id) && s.instances[id].controller is Some && connected,
        connection_answer(s, id, connected) == Err::<ConnectionStatus, Seq<char>>(
            "Instance not found"@,
        ) <==> !s.instances.contains_key(id),
        connection_answer(s, id, connected) is Err <==> !s.instances.contains_key(id),
{
}

/// What an instance lacks for its controller to be asked.
pub proof fn law_controllers_are_missed<C, R, T>(s: StateView<C, R, T>, id: Seq<char>)
    ensures
        !s.instances.contains_key(id) ==> controller_obstacle(s, id) == Some(
            "Instance not found"@,
        ),
        s.instances.contains_key(id) && s.instances[id].controller is None ==> controller_obstacle(
            s,
            id,
        ) == Some("Controller not connected"@),
        s.instances.contains_key(id) && s.instances[id].controller is Some ==> controller_obstacle(
            s,
            id,
        ) is None,
{
}

/// An image is answered with an error exactly where it could not be read, with
/// the framework's own words, or not be converted, or is empty. Any other is
/// answered with a text.
pub proof fn law_images_that_are_not_there(image: Result<Option<Vec<u8>>, String>)
    ensures
        image matches Err(e) ==> image_answer(image) == Err::<Seq<char>, Seq<char>>(e@),
        image matches Ok(None) ==> image_answer(image) == Err::<Seq<char>, Seq<char>>(
            "Failed to convert image buffer"@,
        ),
        image matches Ok(Some(data)) ==> data@.len() == 0 ==> image_answer(image) == Err::<
            Seq<char>,
            Seq<char>,
        >("No image data available"@),
        image matches Ok(Some(data)) ==> data@.len() > 0 ==> image_answer(image) is Ok,
{
}

/// The six bits that a character of the base64 alphabet stands for.
pub open spec fn six_bits(c: char) -> int {
    if 'A' <= c <= 'Z' {
        c as int - 'A' as int
    } else if 'a' <= c <= 'z' {
        c as int - 'a' as int + 26
    } else if '0' <= c <= '9' {
        c as int - '0' as int + 52
    } else if c == '+' {
        62
    } else if c == '/' {
        63
    } else {
        64
    }
}

proof fn lemma_six_bits(bits: int)
    requires
        0 <= bits < 64,
    ensures
        six_bits(base64_char(bits)) == bits,
        base64_char(bits) != '=',
{
    reveal(base64_char);
}

/// What is said of each group of up to three bytes and the four characters
/// that write it.
pub open spec fn group_reads(data: Seq<u8>, text: Seq<char>, k: int) -> bool {
    let bytes = data.len() - 3 * k;
    let a = six_bits(text[4 * k]);
    let b = six_bits(text[4 * k + 1]);
    let c = six_bits(text[4 * k + 2]);
    let d = six_bits(text[4 * k + 3]);
    if bytes >= 3 {
        ((a * 64 + b) * 64 + c) * 64 + d == (data[3 * k] * 256 + data[3 * k + 1]) * 256 + data[3 * k
            + 2] && a < 64 && b < 64 && c < 64 && d < 64
    } else if bytes == 2 {
        (a * 64 + b) * 64 + c == (data[3 * k] * 256 + data[3 * k + 1]) * 4 && text[4 * k + 3] == '='
            && a < 64 && b < 64 && c < 64
    } else {
        a * 64 + b == data[3 * k] * 16 && text[4 * k + 2] == '=' && text[4 * k + 3] == '=' && a < 64
            && b < 64
    }
}

#[verifier::spinoff_prover]
proof fn lemma_twenty_four_bits(n: int)
    requires
        0 <= n < 16777216,
    ensures
        ((n / 262144 * 64 + n / 4096 % 64) * 64 + n / 64 % 64) * 64 + n % 64 == n,
        0 <= n / 262144 < 64,
{
}

#[verifier::spinoff_prover]
proof fn lemma_eighteen_bits(n: int)
    requires
        0 <= n < 262144,
    ensures
        (n / 4096 * 64 + n / 64 % 64) * 64 + n % 64 == n,
        0 <= n / 4096 < 64,
{
}

#[verifier::spinoff_prover]
proof fn lemma_one_byte(data: Seq<u8>)
    requires
        data.len() == 1,
    ensures
        base64_text(data).len() == 4,
        group_reads(data, base64_text(data), 0),
{
    let text = base64_text(data);
    let n = data[0] * 16;
    lemma_six_bits(n / 64);
    lemma_six_bits(n % 64);
    assert(text[0] == base64_char(n / 64) && text[1] == base64_char(n % 64));
}

#[verifier::spinoff_prover]
proof fn lemma_two_bytes(data: Seq<u8>)
    requires
        data.len() == 2,
    ensures
        base64_text(data).len() == 4,
        group_reads(data, base64_text(data), 0),
{
    let text = base64_text(data);
    let n = (data[0] * 256 + data[1]) * 4;
    let a = n / 4096;
    let b = n / 64 % 64;
    let c = n % 64;
    lemma_eighteen_bits(n);
    lemma_six_bits(a);
    lemma_six_bits(b);
    lemma_six_bits(c);
    assert(text =~= seq![base64_char(a), base64_char(b), base64_char(c), '=']);
}

#[verifier::spinoff_prover]
proof fn lemma_three_bytes(data: Seq<u8>)
    requires
        data.len() >= 3,
    ensures
        base64_text(data).len() >= 4,
        group_reads(data, base64_text(data), 0),
{
    let text = base64_text(data);
    let n = data[0] * 65536 + data[1] * 256 + data[2];
    let a = n / 262144;
    let b = n / 4096 % 64;
    let c = n / 64 % 64;
    let d = n % 64;
    lemma_twenty_four_bits(n);
    lemma_six_bits(a);
    lemma_six_bits(b);
    lemma_six_bits(c);
    lemma_six_bits(d);
    assert(text.take(4) =~= seq![base64_char(a), base64_char(b), base64_char(c), base64_char(d)]);
    assert(text[0] == text.take(4)[0] && text[1] == text.take(4)[1] && text[2] == text.take(4)[2]
        && text[3] == text.take(4)[3]);
}

proof fn lemma_first_group(data: Seq<u8>)
    requires
        data.len() > 0,
    ensures
        base64_text(data).len() >= 4,
        group_reads(data, base64_text(data), 0),
{
    if data.len() == 1 {
        lemma_one_byte(data);
    } else if data.len() == 2 {
        lemma_two_bytes(data);
    } else {
        lemma_three_bytes(data);
    }
}

proof fn lemma_groups_read(data: Seq<u8>, k: int)
    requires
        0 <= k,
        3 * k < data.len(),
    ensures
        base64_text(data).len() >= 4 * k + 4,
        group_reads(data, base64_text(data), k),
    decreases k,
{
    if k == 0 {
        lemma_first_group(data);
    } else {
        let rest = data.skip(3);
        lemma_groups_read(rest, k - 1);
        let text = base64_text(data);
        let more = base64_text(rest);
        assert(text.skip(4) =~= more);
        assert forall|j: int| 4 <= j < text.len() implies text[j] == more[j - 4] by {}
        assert forall|j: int| 3 <= j < data.len() implies data[j] == rest[j - 3] by {}
        assert(4 * (k - 1) == 4 * k - 4 && 3 * (k - 1) == 3 * k - 3);
    }
}

/// The answer for an image is the beginning of a data URL for a PNG, and
/// behind it the bytes of the image in base64: each three bytes are read back
/// from the next four characters, and a last one or two bytes from four that
/// end in padding. There is nothing behind them.
pub proof fn law_images_are_read_back(image: Result<Option<Vec<u8>>, String>, data: Vec<u8>, k: int)
    requires
        image == Ok::<Option<Vec<u8>>, String>(Some(data)),
        0 <= k,
        3 * k < data@.len(),
    ensures
        ({
            let head = "data:image/png;base64,"@;
            &&& image_answer(image) matches Ok(url)
            &&& head.is_prefix_of(url)
            &&& url.len() == head.len() + (data@.len() + 2) / 3 * 4
            &&& group_reads(data@, url.skip(head.len() as int), k)
        }),
{
    let head = "data:image/png;base64,"@;
    lemma_groups_read(data@, k);
    crate::laws::law_base64_len(data@);
    assert(image_url(data@).skip(head.len() as int) =~= base64_text(data@));
}

} // verus!
