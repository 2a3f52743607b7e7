//! The decorated page: a star, presents that change colour, ornaments that
//! blink, and the dots that a lockfile's checksums paint.

use crate::utils::error_handling::{Error, ErrorKind};
use crate::utils::reply::{Reply, Status};
use crate::utils::text::{
    decimal, digit_char, hex_pair, join_lines, joined_lines, lemma_digit_text, lowercase,
    lowercase_of, push_decimal, push_hex_pair, push_upper_hex_pair, same_text, texts_of,
    upper_hex_pair,
};
use vstd::prelude::*;
use vstd::string::StringSliceAdditionalSpecFns;
use vstd::utf8::{encode_utf8, is_ascii_chars, is_ascii_chars_encode_utf8};

verus! {

/// The page's star, lit.
pub const STAR: &'static str = "<div id=\"star\" class=\"lit\"></div>";

/// Answers with the lit star.
pub fn star() -> (reply: Reply)
    ensures
        reply.status == Status::Success,
        reply.body@ == STAR@,
{
    Reply::new(Status::Success, STAR)
}

/// The colour of a present.
#[derive(Debug, Clone, Copy, PartialEq, Eq, Structural)]
pub enum Color {
    Red,
    Blue,
    Purple,
}

/// The name of a colour.
pub open spec fn color_name(color: Color) -> Seq<char> {
    match color {
        Color::Red => "red"@,
        Color::Blue => "blue"@,
        Color::Purple => "purple"@,
    }
}

/// The colour that a present takes after `color`: red, blue, purple, and
/// red again.
pub open spec fn next_color(color: Color) -> Color {
    match color {
        Color::Red => Color::Blue,
        Color::Blue => Color::Purple,
        Color::Purple => Color::Red,
    }
}

/// The colour that a lower-case name stands for.
pub open spec fn color_of_name(name: Seq<char>) -> Result<Color, Error> {
    if name == "red"@ {
        Ok(Color::Red)
    } else if name == "purple"@ {
        Ok(Color::Purple)
    } else if name == "blue"@ {
        Ok(Color::Blue)
    } else {
        Err(Error { kind: ErrorKind::InvalidColor })
    }
}

impl Color {
    /// The colour that `name` stands for, exactly as it is written.
    pub fn from_name(name: &str) -> (result: Result<Color, Error>)
        ensures
            result == color_of_name(name@),
    {
        if same_text(name, "red") {
            Ok(Color::Red)
        } else if same_text(name, "purple") {
            Ok(Color::Purple)
        } else if same_text(name, "blue") {
            Ok(Color::Blue)
        } else {
            Err(Error { kind: ErrorKind::InvalidColor })
        }
    }

    /// The colour that `value` stands for, in whatever case it is written.
    pub fn try_from(value: String) -> (result: Result<Color, Error>)
        ensures
            result == color_of_name(lowercase_of(value@)),
    {
        let lower = lowercase(value.as_str());
        Color::from_name(lower.as_str())
    }

    /// The name of the colour.
    pub fn name(&self) -> (name: &'static str)
        ensures
            name@ == color_name(*self),
    {
        match self {
            Color::Red => "red",
            Color::Blue => "blue",
            Color::Purple => "purple",
        }
    }

    /// The colour that a present takes after this one.
    pub fn next(&self) -> (next: Color)
        ensures
            next == next_color(*self),
    {
        match self {
            Color::Red => Color::Blue,
            Color::Blue => Color::Purple,
            Color::Purple => Color::Red,
        }
    }
}

/// After three changes a present has its first colour again.
pub proof fn lemma_colors_come_round(color: Color)
    ensures
        next_color(next_color(next_color(color))) == color,
        next_color(color) != color,
{
}

/// The name of a colour is read back as that colour.
pub proof fn lemma_color_name_reads_back(color: Color)
    ensures
        color_of_name(color_name(color)) == Ok::<Color, Error>(color),
{
    reveal_strlit("red");
    reveal_strlit("blue");
    reveal_strlit("purple");
    assert("red"@.len() == 3 && "blue"@.len() == 4 && "purple"@.len() == 6);
}

/// One ribbon of a present.
pub const RIBBON: &'static str = "  <div class=\"ribbon\"></div>\n";

/// A present of the given colour, with its four ribbons, which asks for the
/// next colour when it is touched.
pub open spec fn present_html(color: Color) -> Seq<char> {
    "<div class=\"present "@ + color_name(color) + "\" hx-get=\"/23/present/"@ + color_name(
        next_color(color),
    ) + "\" hx-swap=\"outerHTML\">\n"@ + RIBBON@ + RIBBON@ + RIBBON@ + RIBBON@ + "</div>\n"@
}

/// The answer to a request for a present, given what its colour turned out
/// to be: the present, or a teapot where the colour is not known.
pub open spec fn present_reply(color: Result<Color, Error>) -> (Status, Seq<char>) {
    match color {
        Ok(color) => (Status::Success, present_html(color)),
        Err(_) => (Status::ImATeapot, Seq::empty()),
    }
}

/// A present of the given colour.
pub fn present_of(color: Color) -> (html: String)
    ensures
        html@ == present_html(color),
{
    let mut html = String::from_str("<div class=\"present ");
    html.append(color.name());
    html.append("\" hx-get=\"/23/present/");
    html.append(color.next().name());
    html.append("\" hx-swap=\"outerHTML\">\n");
    html.append(RIBBON);
    html.append(RIBBON);
    html.append(RIBBON);
    html.append(RIBBON);
    html.append("</div>\n");
    html
}

/// Answers a request for a present of the colour that `color` names, in
/// whatever case.
pub fn present(color: String) -> (reply: Reply)
    ensures
        (reply.status, reply.body@) == present_reply(color_of_name(lowercase_of(color@))),
{
    match Color::try_from(color) {
        Ok(color) => Reply { status: Status::Success, body: present_of(color) },
        Err(_) => Reply::empty(Status::ImATeapot),
    }
}

/// What a single character becomes inside a quoted attribute.
pub open spec fn escaped_char(c: char) -> Seq<char> {
    if c == '&' {
        "&amp;"@
    } else if c == '<' {
        "&lt;"@
    } else if c == '>' {
        "&gt;"@
    } else if c == '"' {
        "&quot;"@
    } else if c == '\'' {
        "&#x27;"@
    } else {
        seq![c]
    }
}

/// What a text becomes inside a quoted attribute: the ampersand, the angle
/// brackets and both quotes give way to their entities, every other
/// character stays.
pub open spec fn escaped(text: Seq<char>) -> Seq<char>
    decreases text.len(),
{
    if text.len() == 0 {
        Seq::empty()
    } else {
        escaped(text.drop_last()) + escaped_char(text.last())
    }
}

/// Calls `html_escape::encode_quoted_attribute`.
///
/// Believed of it: it replaces `&`, `<`, `>`, `"` and `'` by `&amp;`,
/// `&lt;`, `&gt;`, `&quot;` and `&#x27;`, and copies every other character.
#[verifier::external_body]
fn escape_attribute(text: &str) -> (safe: String)
    ensures
        safe@ == escaped(text@),
{
    html_escape::encode_quoted_attribute(text).into_owned()
}

/// Whether a lower-case word switches an ornament on, or off, or is no
/// such word.
pub open spec fn switch_of_word(word: Seq<char>) -> Option<bool> {
    if word == "on"@ {
        Some(true)
    } else if word == "off"@ {
        Some(false)
    } else {
        None
    }
}

/// An ornament that is on or off, named by an identifier that has already
/// been made safe for an attribute, and that asks for the opposite state
/// two seconds after it was loaded.
pub open spec fn ornament_html(on: bool, safe_id: Seq<char>) -> Seq<char> {
    "<div class=\"ornament"@ + (if on {
        " on"@
    } else {
        ""@
    }) + "\" id=\"ornament"@ + safe_id
        + "\" hx-trigger=\"load delay:2s once\" hx-get=\"/23/ornament/"@ + (if on {
        "off"@
    } else {
        "on"@
    }) + "/"@ + safe_id + "\" hx-swap=\"outerHTML\"></div>\n"@
}

/// The answer to a request for an ornament, given its switch and its safe
/// identifier: the ornament, or a teapot where the switch is no switch.
pub open spec fn ornament_reply(switch: Option<bool>, safe_id: Seq<char>) -> (Status, Seq<char>) {
    match switch {
        Some(on) => (Status::Success, ornament_html(on, safe_id)),
        None => (Status::ImATeapot, Seq::empty()),
    }
}

/// Whether `word`, exactly as it is written, switches an ornament on or off.
pub fn switch_of(word: &str) -> (switch: Option<bool>)
    ensures
        switch == switch_of_word(word@),
{
    if same_text(word, "on") {
        Some(true)
    } else if same_text(word, "off") {
        Some(false)
    } else {
        None
    }
}

/// An ornament that is on or off, with an identifier that is already safe
/// for an attribute.
pub fn ornament_of(on: bool, safe_id: &str) -> (html: String)
    ensures
        html@ == ornament_html(on, safe_id@),
{
    let mut html = String::from_str("<div class=\"ornament");
    html.append(if on {
        " on"
    } else {
        ""
    });
    html.append("\" id=\"ornament");
    html.append(safe_id);
    html.append("\" hx-trigger=\"load delay:2s once\" hx-get=\"/23/ornament/");
    html.append(if on {
        "off"
    } else {
        "on"
    });
    html.append("/");
    html.append(safe_id);
    html.append("\" hx-swap=\"outerHTML\"></div>\n");
    html
}

/// Answers a request for the ornament `id` in the state that `state_str`
/// names, in whatever case.
pub fn ornament(state_str: String, id: String) -> (reply: Reply)
    ensures
        (reply.status, reply.body@) == ornament_reply(
            switch_of_word(lowercase_of(state_str@)),
            escaped(id@),
        ),
{
    let lower = lowercase(state_str.as_str());
    let on = match switch_of(lower.as_str()) {
        Some(on) => on,
        None => {
            return Reply::empty(Status::ImATeapot);
        },
    };
    let safe_id = escape_attribute(id.as_str());
    Reply { status: Status::Success, body: ornament_of(on, safe_id.as_str()) }
}

/// Number of octets of a digest.
pub const DIGEST_SIZE: usize = 32;

/// A lockfile, as far as it is read: the packages that it lists.
#[derive(Clone, Debug, Eq, PartialEq)]
pub struct Lockfile {
    /// The packages of the lockfile, in its order.
    pub package: Vec<Package>,
}

/// A package of a lockfile, as far as it is read.
#[derive(Clone, Debug, Eq, PartialEq, PartialOrd, Ord, Hash)]
pub struct Package {
    /// The checksum of the package, where it has one.
    pub checksum: Option<Checksum>,
}

/// The checksum of a package.
#[derive(Clone, Debug, Eq, Hash, PartialEq, PartialOrd, Ord)]
pub enum Checksum {
    /// A SHA-256 digest.
    Sha256([u8; DIGEST_SIZE]),
}

impl View for Checksum {
    type V = Seq<u8>;

    /// The octets of the digest.
    open spec fn view(&self) -> Seq<u8> {
        match self {
            Checksum::Sha256(digest) => digest@,
        }
    }
}

/// The number that a hex digit stands for; `None` for an octet that is no
/// hex digit.
pub open spec fn hex_value(octet: u8) -> Option<u8> {
    if 0x30 <= octet <= 0x39 {
        Some((octet - 0x30) as u8)
    } else if 0x61 <= octet <= 0x66 {
        Some((octet - 0x61 + 10) as u8)
    } else if 0x41 <= octet <= 0x46 {
        Some((octet - 0x41 + 10) as u8)
    } else {
        None
    }
}

/// Whether a text, given as its octets, can be read as a checksum: hex
/// digits only, an even number of them, eight at least.
pub open spec fn is_checksum_text(text: Seq<u8>) -> bool {
    &&& text.len() >= 8
    &&& text.len() % 2 == 0
    &&& forall|i: int| 0 <= i < text.len() ==> (#[trigger] hex_value(text[i])) is Some
}

/// The octet that the `i`-th pair of hex digits of a text stands for; zero
/// where the text has no such pair.
pub open spec fn digest_octet(text: Seq<u8>, i: int) -> u8 {
    if 2 * i + 1 < text.len() {
        (hex_value(text[2 * i])->0 * 16 + hex_value(text[2 * i + 1])->0) as u8
    } else {
        0
    }
}

/// The digest that a checksum text stands for: one octet for each pair of
/// hex digits, and zeros behind them.
pub open spec fn digest_of_text(text: Seq<u8>) -> Seq<u8> {
    Seq::new(DIGEST_SIZE as nat, |i: int| digest_octet(text, i))
}

/// The hex digits of the first `upto` octets of a digest, in lower case.
pub open spec fn hex_text(digest: Seq<u8>, upto: int) -> Seq<char>
    decreases upto,
{
    if upto <= 0 {
        Seq::empty()
    } else {
        hex_text(digest, upto - 1) + hex_pair(digest[upto - 1])
    }
}

/// The hex digits of the first `upto` octets of a digest, in upper case.
pub open spec fn upper_hex_text(digest: Seq<u8>, upto: int) -> Seq<char>
    decreases upto,
{
    if upto <= 0 {
        Seq::empty()
    } else {
        upper_hex_text(digest, upto - 1) + upper_hex_pair(digest[upto - 1])
    }
}

/// The number that the hex digit `octet` stands for.
fn hex_digit(octet: u8) -> (value: Option<u8>)
    ensures
        value == hex_value(octet),
        value matches Some(v) ==> v < 16,
{
    if 0x30 <= octet && octet <= 0x39 {
        Some(octet - 0x30)
    } else if 0x61 <= octet && octet <= 0x66 {
        Some(octet - 0x61 + 10)
    } else if 0x41 <= octet && octet <= 0x46 {
        Some(octet - 0x41 + 10)
    } else {
        None
    }
}

impl Checksum {
    /// Every digest has thirty-two octets.
    pub proof fn lemma_digest_size(&self)
        ensures
            self@.len() == DIGEST_SIZE,
    {
    }

    /// The checksum with the given digest.
    pub fn from(bytes: [u8; DIGEST_SIZE]) -> (checksum: Checksum)
        ensures
            checksum@ == bytes@,
    {
        Checksum::Sha256(bytes)
    }

    /// The octets of the digest.
    pub fn digest(&self) -> (bytes: [u8; DIGEST_SIZE])
        ensures
            bytes@ == self@,
    {
        match self {
            Checksum::Sha256(digest) => *digest,
        }
    }

    /// Whether `s` can be read as a checksum: hex digits only, an even
    /// number of them, eight at least.
    pub fn is_valid(s: &str) -> (valid: bool)
        ensures
            valid == is_checksum_text(s.spec_bytes()),
    {
        let text = s.as_bytes();
        let chars = text.len();
        if chars % 2 != 0 || chars < 8 {
            return false;
        }
        let mut k: usize = 0;
        while k < chars
            invariant
                k <= chars,
                chars == text@.len(),
                text@ == s.spec_bytes(),
                forall|j: int| 0 <= j < k ==> (#[trigger] hex_value(text@[j])) is Some,
            decreases chars - k,
        {
            if hex_digit(text[k]).is_none() {
                assert(hex_value(text@[k as int]) is None);
                return false;
            }
            k += 1;
        }
        true
    }

    /// Reads a checksum from its hex digits.
    ///
    /// The text must be made of hex digits, an even number of them and
    /// eight at least; anything else is an invalid checksum. A text that
    /// is shorter than a whole digest stands for the digest that has zeros
    /// behind the octets that are given. A valid text must not be longer
    /// than a whole digest.
    pub fn from_str(s: &str) -> (result: Result<Checksum, Error>)
        requires
            is_checksum_text(s.spec_bytes()) ==> s.spec_bytes().len() <= 2 * DIGEST_SIZE,
        ensures
            is_checksum_text(s.spec_bytes()) ==> result is Ok && result->Ok_0@ == digest_of_text(
                s.spec_bytes(),
            ),
            !is_checksum_text(s.spec_bytes()) ==> result == Err::<Checksum, Error>(
                Error { kind: ErrorKind::InvalidChecksum },
            ),
    {
        if !Checksum::is_valid(s) {
            return Err(Error { kind: ErrorKind::InvalidChecksum });
        }
        let text = s.as_bytes();
        let mut digest = [0u8; DIGEST_SIZE];
        let bytes = text.len() / 2;
        let mut i: usize = 0;
        while i < bytes
            invariant
                i <= bytes,
                bytes * 2 == text@.len(),
                bytes <= DIGEST_SIZE,
                is_checksum_text(text@),
                forall|j: int| 0 <= j < i ==> #[trigger] digest@[j] == digest_octet(text@, j),
                forall|j: int| i <= j < DIGEST_SIZE ==> #[trigger] digest@[j] == 0,
            decreases bytes - i,
        {
            let high = hex_digit(text[i * 2]);
            let low = hex_digit(text[i * 2 + 1]);
            assert(hex_value(text@[2 * i]) is Some && hex_value(text@[2 * i + 1]) is Some);
            match (high, low) {
                (Some(high), Some(low)) => {
                    digest[i] = high * 16 + low;
                },
                _ => {
                    return Err(Error { kind: ErrorKind::InvalidChecksum });
                },
            }
            i += 1;
        }
        proof {
            assert(digest@ =~= digest_of_text(text@));
        }
        Ok(Checksum::Sha256(digest))
    }

    /// The sixty-four hex digits of the digest, in lower case.
    pub fn to_hex(&self) -> (text: String)
        ensures
            text@ == hex_text(self@, DIGEST_SIZE as int),
    {
        let digest = self.digest();
        let mut text = String::new();
        let mut i: usize = 0;
        while i < DIGEST_SIZE
            invariant
                i <= DIGEST_SIZE,
                digest@ == self@,
                text@ == hex_text(self@, i as int),
            decreases DIGEST_SIZE - i,
        {
            push_hex_pair(&mut text, digest[i]);
            i += 1;
        }
        text
    }

    /// The sixty-four hex digits of the digest, in upper case.
    pub fn to_upper_hex(&self) -> (text: String)
        ensures
            text@ == upper_hex_text(self@, DIGEST_SIZE as int),
    {
        let digest = self.digest();
        let mut text = String::new();
        let mut i: usize = 0;
        while i < DIGEST_SIZE
            invariant
                i <= DIGEST_SIZE,
                digest@ == self@,
                text@ == upper_hex_text(self@, i as int),
            decreases DIGEST_SIZE - i,
        {
            push_upper_hex_pair(&mut text, digest[i]);
            i += 1;
        }
        text
    }

    /// The checksum as it is shown when a value is inspected: the name of
    /// the digest and, in brackets, its hex digits.
    pub fn debug_text(&self) -> (text: String)
        ensures
            text@ == "Sha256("@ + hex_text(self@, DIGEST_SIZE as int) + ")"@,
    {
        let mut text = String::from_str("Sha256(");
        let hex = self.to_hex();
        text.append(hex.as_str());
        text.append(")");
        text
    }
}

/// The hex digits of the first `upto` octets of a digest are two characters
/// for each octet: the digit of its upper half, then that of its lower half.
proof fn lemma_hex_text_digits(digest: Seq<u8>, upto: int)
    requires
        0 <= upto <= digest.len(),
    ensures
        hex_text(digest, upto).len() == 2 * upto,
        forall|i: int|
            #![trigger digest[i]]
            0 <= i < upto ==> hex_text(digest, upto)[2 * i] == digit_char((digest[i] / 16) as nat)
                && hex_text(digest, upto)[2 * i + 1] == digit_char((digest[i] % 16) as nat),
    decreases upto,
{
    if upto > 0 {
        lemma_hex_text_digits(digest, upto - 1);
        let octet = digest[upto - 1];
        lemma_digit_text((octet / 16) as nat);
        lemma_digit_text((octet % 16) as nat);
        let front = hex_text(digest, upto - 1);
        assert(hex_pair(octet) =~= seq![
            digit_char((octet / 16) as nat),
            digit_char((octet % 16) as nat),
        ]);
        assert forall|i: int|
            #![trigger digest[i]]
            0 <= i < upto implies hex_text(digest, upto)[2 * i] == digit_char(
            (digest[i] / 16) as nat,
        ) && hex_text(digest, upto)[2 * i + 1] == digit_char((digest[i] % 16) as nat) by {
            if i < upto - 1 {
                assert(hex_text(digest, upto)[2 * i] == front[2 * i]);
                assert(hex_text(digest, upto)[2 * i + 1] == front[2 * i + 1]);
            }
        }
    }
}

/// The octet of a digit's character is a hex digit that stands for the digit.
proof fn lemma_digit_char_value(digit: nat)
    requires
        digit < 16,
    ensures
        '\0' <= digit_char(digit) <= '\u{7f}',
        hex_value(digit_char(digit) as u8) == Some(digit as u8),
{
}

/// What `to_hex` writes, `from_str` reads back: the hex digits of a digest
/// are a checksum text, and it stands for that very digest.
pub proof fn lemma_hex_digits_read_back(digest: Seq<u8>)
    requires
        digest.len() == DIGEST_SIZE,
    ensures
        is_checksum_text(encode_utf8(hex_text(digest, DIGEST_SIZE as int))),
        digest_of_text(encode_utf8(hex_text(digest, DIGEST_SIZE as int))) == digest,
{
    let text = hex_text(digest, DIGEST_SIZE as int);
    lemma_hex_text_digits(digest, DIGEST_SIZE as int);
    assert forall|k: int| 0 <= k < text.len() implies '\0' <= #[trigger] text[k] <= '\u{7f}'
        && hex_value(text[k] as u8) is Some by {
        let i = k / 2;
        let octet = digest[i];
        lemma_digit_char_value((octet / 16) as nat);
        lemma_digit_char_value((octet % 16) as nat);
        if k % 2 == 0 {
            assert(k == 2 * i);
        } else {
            assert(k == 2 * i + 1);
        }
    }
    assert(is_ascii_chars(text));
    is_ascii_chars_encode_utf8(text);
    let octets = encode_utf8(text);
    assert forall|k: int| 0 <= k < octets.len() implies (#[trigger] hex_value(
        octets[k],
    )) is Some by {
        assert(octets[k] == text[k] as u8);
    }
    assert forall|i: int| 0 <= i < DIGEST_SIZE implies #[trigger] digest_octet(octets, i)
        == digest[i] by {
        let octet = digest[i];
        lemma_digit_char_value((octet / 16) as nat);
        lemma_digit_char_value((octet % 16) as nat);
        assert(octets[2 * i] == text[2 * i] as u8);
        assert(octets[2 * i + 1] == text[2 * i + 1] as u8);
        assert(octet == (octet / 16) * 16 + octet % 16);
    }
    assert(digest_of_text(octets) =~= digest);
}

/// The dot that a digest paints: its first three octets give the colour,
/// the fourth the distance from the top, the fifth the distance from the
/// left.
pub open spec fn dot_html(digest: Seq<u8>) -> Seq<char> {
    "<div style=\"background-color:#"@ + hex_pair(digest[0]) + hex_pair(digest[1]) + hex_pair(
        digest[2],
    ) + ";top:"@ + decimal(digest[3] as nat) + "px;left:"@ + decimal(digest[4] as nat)
        + "px;\"></div>\n"@
}

/// The dots of some packages, one for each package that has a checksum, in
/// the order of the packages.
pub open spec fn dot_lines(packages: Seq<Package>) -> Seq<Seq<char>>
    decreases packages.len(),
{
    if packages.len() == 0 {
        Seq::empty()
    } else {
        let front = dot_lines(packages.drop_last());
        match packages.last().checksum {
            Some(checksum) => front.push(dot_html(checksum@)),
            None => front,
        }
    }
}

/// The text that shows the dots of some packages: the dots, a line end
/// between each two.
pub open spec fn dots_text(packages: Seq<Package>) -> Seq<char> {
    joined_lines(dot_lines(packages))
}

/// The dot that a checksum paints.
pub fn dot_of(checksum: &Checksum) -> (html: String)
    ensures
        html@ == dot_html(checksum@),
{
    let digest = checksum.digest();
    let mut html = String::from_str("<div style=\"background-color:#");
    push_hex_pair(&mut html, digest[0]);
    push_hex_pair(&mut html, digest[1]);
    push_hex_pair(&mut html, digest[2]);
    html.append(";top:");
    push_decimal(&mut html, digest[3] as u32);
    html.append("px;left:");
    push_decimal(&mut html, digest[4] as u32);
    html.append("px;\"></div>\n");
    html
}

/// The text that shows the dots of the packages of a lockfile.
pub fn dots_of(lockfile: &Lockfile) -> (text: String)
    ensures
        text@ == dots_text(lockfile.package@),
{
    let mut dots: Vec<String> = Vec::new();
    let mut i: usize = 0;
    while i < lockfile.package.len()
        invariant
            i <= lockfile.package.len(),
            texts_of(dots@) == dot_lines(lockfile.package@.take(i as int)),
        decreases lockfile.package.len() - i,
    {
        let ghost seen = lockfile.package@.take(i as int);
        let ghost more = lockfile.package@.take(i + 1);
        proof {
            assert(more.drop_last() =~= seen);
            assert(more.last() == lockfile.package@[i as int]);
        }
        match &lockfile.package[i].checksum {
            Some(checksum) => {
                let ghost before = dots@;
                let dot = dot_of(checksum);
                dots.push(dot);
                proof {
                    assert(texts_of(dots@) =~= texts_of(before).push(dot_html(checksum@)));
                }
            },
            None => {},
        }
        i += 1;
    }
    proof {
        assert(lockfile.package@.take(lockfile.package.len() as int) =~= lockfile.package@);
    }
    join_lines(&dots)
}

/// What became of an uploaded lockfile before its packages could be looked at.
#[derive(Debug, Clone, PartialEq, Eq)]
pub enum Upload {
    /// No lockfile was sent along.
    Missing,
    /// The lockfile could not be read; the reader said why.
    Unreadable(String),
    /// The lockfile was read.
    Parsed(Lockfile),
}

/// The answer to an uploaded lockfile. A missing one is a bad request. One
/// that could not be read is unprocessable where the reader stumbled over
/// a checksum, and a bad request otherwise. One that was read is answered
/// with its dots.
pub open spec fn lockfile_reply(upload: Upload) -> (Status, Seq<char>) {
    match upload {
        Upload::Missing => (Status::BadRequest, Seq::empty()),
        Upload::Unreadable(why) => if why@ == "invalid_checksum"@ {
            (Status::UnprocessableEntity, Seq::empty())
        } else {
            (Status::BadRequest, Seq::empty())
        },
        Upload::Parsed(lockfile) => (Status::Success, dots_text(lockfile.package@)),
    }
}

/// Answers an uploaded lockfile.
pub fn lockfile(upload: &Upload) -> (reply: Reply)
    ensures
        (reply.status, reply.body@) == lockfile_reply(*upload),
{
    match upload {
        Upload::Missing => Reply::empty(Status::BadRequest),
        Upload::Unreadable(why) => {
            if same_text(why.as_str(), "invalid_checksum") {
                Reply::empty(Status::UnprocessableEntity)
            } else {
                Reply::empty(Status::BadRequest)
            }
        },
        Upload::Parsed(lockfile) => Reply { status: Status::Success, body: dots_of(lockfile) },
    }
}

} // verus!
