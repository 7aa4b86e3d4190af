//! Failures of the capture interface and the messages that describe them.
use vstd::prelude::*;
use vstd::utf8::encode_utf8;

verus! {

/// The character of a decimal digit `d < 10`.
pub open spec fn digit_char(d: nat) -> char {
    if d == 0 {
        '0'
    } else if d == 1 {
        '1'
    } else if d == 2 {
        '2'
    } else if d == 3 {
        '3'
    } else if d == 4 {
        '4'
    } else if d == 5 {
        '5'
    } else if d == 6 {
        '6'
    } else if d == 7 {
        '7'
    } else if d == 8 {
        '8'
    } else {
        '9'
    }
}

/// The decimal notation of `n`, without leading zeros.
pub open spec fn decimal(n: nat) -> Seq<char>
    decreases n,
{
    if n < 10 {
        seq![digit_char(n)]
    } else {
        decimal(n / 10) + seq![digit_char(n % 10)]
    }
}

fn digit_str(d: usize) -> (r: &'static str)
    requires
        d < 10,
    ensures
        r@ == seq![digit_char(d as nat)],
{
    proof {
        reveal_strlit("0");
        reveal_strlit("1");
        reveal_strlit("2");
        reveal_strlit("3");
        reveal_strlit("4");
        reveal_strlit("5");
        reveal_strlit("6");
        reveal_strlit("7");
        reveal_strlit("8");
        reveal_strlit("9");
    }
    let r = if d == 0 {
        "0"
    } else if d == 1 {
        "1"
    } else if d == 2 {
        "2"
    } else if d == 3 {
        "3"
    } else if d == 4 {
        "4"
    } else if d == 5 {
        "5"
    } else if d == 6 {
        "6"
    } else if d == 7 {
        "7"
    } else if d == 8 {
        "8"
    } else {
        "9"
    };
    assert(r@ =~= seq![digit_char(d as nat)]);
    r
}

/// Writes `n` in decimal.
pub fn decimal_string(n: usize) -> (r: String)
    ensures
        r@ == decimal(n as nat),
    decreases n,
{
    if n < 10 {
        String::from_str(digit_str(n))
    } else {
        let mut s = decimal_string(n / 10);
        s.append(digit_str(n % 10));
        s
    }
}

/// A failure of one query or capture. Every failure is reported to the host
/// as a sentinel value plus the text of `message`.
pub enum CaptureError {
    /// The monitor list could not be fetched; holds the reason given.
    Enumeration(String),
    /// An attribute was asked of a monitor index beyond the list.
    IndexOutOfBounds(usize),
    /// A capture was asked of a monitor index beyond the list.
    InvalidIndex(usize),
    /// The monitor's name holds a NUL byte and cannot cross as C text.
    NameHasNul,
    /// Capturing the monitor at the index failed; holds the reason given.
    Capture(usize, String),
}

impl CaptureError {
    /// The message that describes the failure.
    pub open spec fn text(&self) -> Seq<char> {
        match self {
            CaptureError::Enumeration(reason) => "Error fetching monitors: "@ + reason@,
            CaptureError::IndexOutOfBounds(i) => "Monitor index out of bounds: "@ + decimal(*i as nat),
            CaptureError::InvalidIndex(i) => "Invalid monitor index: "@ + decimal(*i as nat),
            CaptureError::NameHasNul => "Monitor name contains null bytes"@,
            CaptureError::Capture(i, reason) => "Error capturing image for monitor "@ + decimal(
                *i as nat,
            ) + ": "@ + reason@,
        }
    }

    /// Writes the message that describes the failure.
    pub fn message(&self) -> (r: String)
        ensures
            r@ == self.text(),
    {
        match self {
            CaptureError::Enumeration(reason) => {
                let mut s = String::from_str("Error fetching monitors: ");
                s.append(reason.as_str());
                s
            },
            CaptureError::IndexOutOfBounds(i) => {
                let mut s = String::from_str("Monitor index out of bounds: ");
                let d = decimal_string(*i);
                s.append(d.as_str());
                s
            },
            CaptureError::InvalidIndex(i) => {
                let mut s = String::from_str("Invalid monitor index: ");
                let d = decimal_string(*i);
                s.append(d.as_str());
                s
            },
            CaptureError::NameHasNul => String::from_str("Monitor name contains null bytes"),
            CaptureError::Capture(i, reason) => {
                let mut s = String::from_str("Error capturing image for monitor ");
                let d = decimal_string(*i);
                s.append(d.as_str());
                s.append(": ");
                s.append(reason.as_str());
                s
            },
        }
    }
}

/// Every failure is described by a message that is not empty.
pub proof fn lemma_text_not_empty(e: CaptureError)
    ensures
        e.text().len() > 0,
{
    reveal_strlit("Error fetching monitors: ");
    reveal_strlit("Monitor index out of bounds: ");
    reveal_strlit("Invalid monitor index: ");
    reveal_strlit("Monitor name contains null bytes");
    reveal_strlit("Error capturing image for monitor ");
}

/// Whether the bytes hold a NUL, which C text cannot carry.
pub open spec fn has_nul(bytes: Seq<u8>) -> bool {
    exists|i: int| 0 <= i < bytes.len() && bytes[i] == 0
}

/// Whether the UTF-8 encoding of `s` holds a NUL byte.
pub fn contains_nul(s: &str) -> (r: bool)
    ensures
        r == has_nul(encode_utf8(s@)),
{
    let bytes = s.as_bytes();
    let mut i: usize = 0;
    while i < bytes.len()
        invariant
            bytes@ == encode_utf8(s@),
            i <= bytes@.len(),
            forall|j: int| 0 <= j < i ==> bytes@[j] != 0,
        decreases bytes@.len() - i,
    {
        if bytes[i] == 0 {
            return true;
        }
        i = i + 1;
    }
    false
}

/// What stands in the error slot in place of a message that holds a NUL.
pub open spec fn fallback_text() -> Seq<char> {
    "Failed to create error message"@
}

/// The fixed notice holds no NUL byte.
pub proof fn lemma_fallback_clean()
    ensures
        !has_nul(encode_utf8(fallback_text())),
{
    reveal_strlit("Failed to create error message");
    let c = fallback_text();
    assert(forall|i: int| 0 <= i < c.len() ==> 'A' <= #[trigger] c[i] <= 'z' || c[i] == ' ');
    vstd::utf8::is_ascii_chars_encode_utf8(c);
    assert(!has_nul(encode_utf8(c))) by {
        if has_nul(encode_utf8(c)) {
            let i = choose|i: int| 0 <= i < encode_utf8(c).len() && encode_utf8(c)[i] == 0;
            assert(c[i] as u8 == 0);
        }
    }
}

/// The text that the error slot keeps for `msg`: the message itself when it
/// can cross as C text, else a fixed notice.
pub open spec fn slot_text(msg: Seq<char>) -> Seq<char> {
    if has_nul(encode_utf8(msg)) {
        fallback_text()
    } else {
        msg
    }
}

/// Makes `msg` fit for the error slot.
pub fn slot_message(msg: String) -> (r: String)
    ensures
        r@ == slot_text(msg@),
        !has_nul(encode_utf8(r@)),
{
    if contains_nul(msg.as_str()) {
        let r = String::from_str("Failed to create error message");
        proof {
            lemma_fallback_clean();
        }
        r
    } else {
        msg
    }
}

} // verus!
