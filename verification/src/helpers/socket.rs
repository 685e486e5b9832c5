//! Names of the live-update channels that new and edited messages are
//! pushed to, and the decimal writing of ids they use.
use vstd::prelude::*;
use vstd::string::StringExecFns;

verus! {

/// The character of a decimal digit.
pub open spec fn digit_char(d: int) -> char {
    if d == 0 {
        '0'
    } else if d == 1 {
        '1'
    } else if d == 2 {
        '2'
    } else if d == 3 {
        '3'
    } else if d == 4 {
        '4'
    } else if d == 5 {
        '5'
    } else if d == 6 {
        '6'
    } else if d == 7 {
        '7'
    } else if d == 8 {
        '8'
    } else {
        '9'
    }
}

/// The decimal digits of a natural number, without leading zeros.
pub open spec fn digits(n: nat) -> Seq<char>
    decreases n,
{
    if n < 10 {
        seq![digit_char(n as int)]
    } else {
        digits(n / 10).push(digit_char((n % 10) as int))
    }
}

/// The decimal writing of an integer, with a minus sign when negative.
pub open spec fn decimal(i: int) -> Seq<char> {
    if i < 0 {
        seq!['-'] + digits((-i) as nat)
    } else {
        digits(i as nat)
    }
}

fn digit_str(d: u64) -> (s: &'static str)
    requires
        d < 10,
    ensures
        s@ == seq![digit_char(d as int)],
{
    proof {
        reveal_strlit("0");
        reveal_strlit("1");
        reveal_strlit("2");
        reveal_strlit("3");
        reveal_strlit("4");
        reveal_strlit("5");
        reveal_strlit("6");
        reveal_strlit("7");
        reveal_strlit("8");
        reveal_strlit("9");
    }
    if d == 0 {
        "0"
    } else if d == 1 {
        "1"
    } else if d == 2 {
        "2"
    } else if d == 3 {
        "3"
    } else if d == 4 {
        "4"
    } else if d == 5 {
        "5"
    } else if d == 6 {
        "6"
    } else if d == 7 {
        "7"
    } else if d == 8 {
        "8"
    } else {
        "9"
    }
}

/// Appends the digits of `n` to `s`.
fn push_digits(s: &mut String, n: u128)
    ensures
        final(s)@ == old(s)@ + digits(n as nat),
    decreases n,
{
    if n >= 10 {
        push_digits(s, n / 10);
    }
    s.append(digit_str((n % 10) as u64));
}

/// The decimal writing of a natural number (as `to_string` writes it).
pub fn natural_string(n: u128) -> (s: String)
    ensures
        s@ == digits(n as nat),
{
    let mut s = String::new();
    push_digits(&mut s, n);
    s
}

/// The decimal writing of an integer (as `to_string` writes it).
pub fn decimal_string(i: i64) -> (s: String)
    ensures
        s@ == decimal(i as int),
{
    let mut s = String::new();
    if i < 0 {
        proof {
            reveal_strlit("-");
        }
        s.append("-");
        let m: u64 = if i == i64::MIN {
            9223372036854775808u64
        } else {
            (-i) as u64
        };
        push_digits(&mut s, m as u128);
    } else {
        push_digits(&mut s, i as u128);
    }
    s
}

/// The channel of a conversation between two users.
pub open spec fn user_chat_channel_name(user_id: int, other_id: int) -> Seq<char> {
    "user-chat-"@ + decimal(user_id) + "-"@ + decimal(other_id)
}

/// `user-chat-{user}-{other}`.
pub fn user_chat_channel(user_id: i32, other_id: i32) -> (s: String)
    ensures
        s@ == user_chat_channel_name(user_id as int, other_id as int),
{
    let mut s = String::from_str("user-chat-");
    s.append(decimal_string(user_id as i64).as_str());
    s.append("-");
    s.append(decimal_string(other_id as i64).as_str());
    s
}

/// The channel of a chat channel of a space.
pub open spec fn channel_chat_channel_name(space_name: Seq<char>, channel_name: Seq<char>) -> Seq<char> {
    space_name + "-"@ + channel_name
}

/// `{space}-{channel}`.
pub fn channel_chat_channel(space_name: &String, channel_name: &String) -> (s: String)
    ensures
        s@ == channel_chat_channel_name(space_name@, channel_name@),
{
    let mut s = space_name.clone();
    s.append("-");
    s.append(channel_name.as_str());
    s
}

/// The channel of the thread of a channel message.
pub open spec fn thread_chat_channel_name(chat_id: int, channel_id: int) -> Seq<char> {
    "thread-chat-"@ + decimal(chat_id) + "-"@ + decimal(channel_id)
}

/// `thread-chat-{chat}-{channel}`.
pub fn thread_chat_channel(chat_id: i32, channel_id: i32) -> (s: String)
    ensures
        s@ == thread_chat_channel_name(chat_id as int, channel_id as int),
{
    let mut s = String::from_str("thread-chat-");
    s.append(decimal_string(chat_id as i64).as_str());
    s.append("-");
    s.append(decimal_string(channel_id as i64).as_str());
    s
}

} // verus!
