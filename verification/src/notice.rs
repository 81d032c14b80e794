//! The progress texts that a pass sends to the display while it works.
use vstd::prelude::*;
use vstd::string::StringExecFns;
use crate::logs::{shown_name, shown_name_of};

verus! {

/// The character of a decimal digit.
pub open spec fn digit_of(digit: int) -> char {
    if digit == 0 {
        '0'
    } else if digit == 1 {
        '1'
    } else if digit == 2 {
        '2'
    } else if digit == 3 {
        '3'
    } else if digit == 4 {
        '4'
    } else if digit == 5 {
        '5'
    } else if digit == 6 {
        '6'
    } else if digit == 7 {
        '7'
    } else if digit == 8 {
        '8'
    } else {
        '9'
    }
}

/// The decimal digits of a number that is not negative, without leading
/// zeros.
pub open spec fn digits_of(number: nat) -> Seq<char>
    decreases number,
{
    if number < 10 {
        seq![digit_of(number as int)]
    } else {
        digits_of(number / 10).push(digit_of(number as int % 10))
    }
}

/// A number written in decimal, with a minus sign where it is negative.
pub open spec fn decimal_of(number: int) -> Seq<char> {
    if number < 0 {
        seq!['-'] + digits_of((-number) as nat)
    } else {
        digits_of(number as nat)
    }
}

fn digit(value: u64) -> (text: &'static str)
    requires
        value < 10,
    ensures
        text@ == seq![digit_of(value as int)],
{
    proof {
        reveal_strlit("0");
        reveal_strlit("1");
        reveal_strlit("2");
        reveal_strlit("3");
        reveal_strlit("4");
        reveal_strlit("5");
        reveal_strlit("6");
        reveal_strlit("7");
        reveal_strlit("8");
        reveal_strlit("9");
    }
    let text = if value == 0 {
        "0"
    } else if value == 1 {
        "1"
    } else if value == 2 {
        "2"
    } else if value == 3 {
        "3"
    } else if value == 4 {
        "4"
    } else if value == 5 {
        "5"
    } else if value == 6 {
        "6"
    } else if value == 7 {
        "7"
    } else if value == 8 {
        "8"
    } else {
        "9"
    };
    assert(text@ =~= seq![digit_of(value as int)]);
    text
}

fn digits(number: u64) -> (text: String)
    ensures
        text@ == digits_of(number as nat),
    decreases number,
{
    if number < 10 {
        digit(number).to_owned()
    } else {
        let text = digits(number / 10).concat(digit(number % 10));
        assert(text@ =~= digits_of(number as nat));
        text
    }
}

/// Writes a number in decimal.
pub fn decimal(number: i32) -> (text: String)
    ensures
        text@ == decimal_of(number as int),
{
    if number < 0 {
        proof {
            reveal_strlit("-");
        }
        let text = "-".to_owned().concat(digits((-(number as i64)) as u64).as_str());
        assert(text@ =~= decimal_of(number as int));
        text
    } else {
        digits(number as u64)
    }
}

/// The text shown while the page of a pool is fetched.
pub open spec fn fetch_notice_of(card_pool_type: i32) -> Seq<char> {
    "正在获取卡池 "@ + decimal_of(card_pool_type as int) + " 的数据"@
}

/// The text shown while the page of a pool is fetched.
pub fn fetch_notice(card_pool_type: i32) -> (text: String)
    ensures
        text@ == fetch_notice_of(card_pool_type),
{
    "正在获取卡池 ".to_owned().concat(decimal(card_pool_type).as_str()).concat(" 的数据")
}

/// The text shown while a log file is searched.
pub open spec fn log_notice_of(path: Seq<char>) -> Seq<char> {
    "正在从日志文件中获取卡池地址："@ + shown_name_of(path)
}

/// The text shown while a log file is searched.
pub fn log_notice(path: &str) -> (text: String)
    ensures
        text@ == log_notice_of(path@),
{
    "正在从日志文件中获取卡池地址：".to_owned().concat(shown_name(path).as_str())
}

} // verus!
