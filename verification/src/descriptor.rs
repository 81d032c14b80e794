//! The record-query descriptor: what the record service must be told to
//! answer for one player, and how it is read from a record page address.
use vstd::prelude::*;
use vstd::std_specs::iter::IteratorSpec;
use vstd::string::{StrSliceExecFns, StringExecFns};
use crate::error::SyncError;
use crate::trusted::{parse_error_text, parse_query_pairs, query_pairs_of};

verus! {

/// The body of a record query.
#[derive(Debug)]
pub struct RequestParam {
    /// The `resources_id` of the record page.
    pub card_pool_id: String,
    /// The pool asked for, 1 to 7; 0 until a pool is chosen.
    pub card_pool_type: i32,
    pub language_code: String,
    pub player_id: String,
    pub record_id: String,
    /// The `svr_id` of the record page.
    pub server_id: String,
}

/// The mathematical value of a [`RequestParam`].
pub struct RequestParamView {
    pub card_pool_id: Seq<char>,
    pub card_pool_type: i32,
    pub language_code: Seq<char>,
    pub player_id: Seq<char>,
    pub record_id: Seq<char>,
    pub server_id: Seq<char>,
}

impl View for RequestParam {
    type V = RequestParamView;

    open spec fn view(&self) -> RequestParamView {
        RequestParamView {
            card_pool_id: self.card_pool_id@,
            card_pool_type: self.card_pool_type,
            language_code: self.language_code@,
            player_id: self.player_id@,
            record_id: self.record_id@,
            server_id: self.server_id@,
        }
    }
}

impl Clone for RequestParam {
    fn clone(&self) -> (copy: Self)
        ensures
            copy == *self,
    {
        RequestParam {
            card_pool_id: self.card_pool_id.clone(),
            card_pool_type: self.card_pool_type,
            language_code: self.language_code.clone(),
            player_id: self.player_id.clone(),
            record_id: self.record_id.clone(),
            server_id: self.server_id.clone(),
        }
    }
}

impl RequestParam {
    /// A descriptor for which no pool has been chosen yet.
    pub fn init(
        card_pool_id: String,
        language_code: String,
        player_id: String,
        record_id: String,
        server_id: String,
    ) -> (param: Self)
        ensures
            param == (RequestParam {
                card_pool_id,
                card_pool_type: 0,
                language_code,
                player_id,
                record_id,
                server_id,
            }),
    {
        Self { card_pool_id, card_pool_type: 0, language_code, player_id, record_id, server_id }
    }

    /// The same descriptor, asking for the given pool.
    pub fn for_pool(&self, card_pool_type: i32) -> (param: Self)
        ensures
            param == (RequestParam { card_pool_type, ..*self }),
    {
        let mut param = self.clone();
        param.card_pool_type = card_pool_type;
        param
    }
}

/// The value of the last pair with the given name, or the empty text when no
/// pair has that name.
pub open spec fn last_value(pairs: Seq<(Seq<char>, Seq<char>)>, name: Seq<char>) -> Seq<char>
    decreases pairs.len(),
{
    if pairs.len() == 0 {
        Seq::empty()
    } else if pairs.last().0 == name {
        pairs.last().1
    } else {
        last_value(pairs.drop_last(), name)
    }
}

/// The descriptor that a query describes.
pub open spec fn request_param_of(pairs: Seq<(Seq<char>, Seq<char>)>) -> RequestParamView {
    RequestParamView {
        card_pool_id: last_value(pairs, "resources_id"@),
        card_pool_type: 0,
        language_code: last_value(pairs, "lang"@),
        player_id: last_value(pairs, "player_id"@),
        record_id: last_value(pairs, "record_id"@),
        server_id: last_value(pairs, "svr_id"@),
    }
}

/// Whether a query names the service area outside the home region.
pub open spec fn is_oversea(pairs: Seq<(Seq<char>, Seq<char>)>) -> bool {
    last_value(pairs, "svr_area"@) == "global"@
}

/// Looks a name up in a query; the last pair with that name counts.
pub fn find_last_value(pairs: &Vec<(String, String)>, name: &str) -> (value: String)
    ensures
        value@ == last_value(pairs.deep_view(), name@),
{
    let wanted = name.to_owned();
    let mut i: usize = pairs.len();
    assert(pairs.deep_view().take(i as int) =~= pairs.deep_view());
    while i > 0
        invariant
            i <= pairs.len(),
            wanted@ == name@,
            last_value(pairs.deep_view(), name@) == last_value(
                pairs.deep_view().take(i as int),
                name@,
            ),
        decreases i,
    {
        i -= 1;
        proof {
            let seen = pairs.deep_view().take(i + 1);
            assert(seen.drop_last() =~= pairs.deep_view().take(i as int));
            assert(seen.last() == pairs.deep_view()[i as int]);
        }
        if pairs[i].0 == wanted {
            return pairs[i].1.clone();
        }
    }
    String::new()
}

/// Reads the descriptor, and whether it belongs to the oversea service, out
/// of the pairs of a query.
pub fn request_param_from_pairs(pairs: &Vec<(String, String)>) -> (found: (bool, RequestParam))
    ensures
        found.0 == is_oversea(pairs.deep_view()),
        found.1@ == request_param_of(pairs.deep_view()),
{
    let area = find_last_value(pairs, "svr_area");
    let oversea = area == "global".to_owned();
    let param = RequestParam::init(
        find_last_value(pairs, "resources_id"),
        find_last_value(pairs, "lang"),
        find_last_value(pairs, "player_id"),
        find_last_value(pairs, "record_id"),
        find_last_value(pairs, "svr_id"),
    );
    (oversea, param)
}

/// Whether a character is another one than `dropped`.
pub open spec fn other_than(dropped: char) -> spec_fn(char) -> bool {
    |c: char| c != dropped
}

/// A text without the character `dropped`, the rest in order.
pub open spec fn without(text: Seq<char>, dropped: char) -> Seq<char> {
    text.filter(other_than(dropped))
}

/// One more character at the end of a text is kept unless it is the one
/// dropped.
pub proof fn lemma_without_push(text: Seq<char>, last: char, dropped: char)
    ensures
        without(text.push(last), dropped) == if last == dropped {
            without(text, dropped)
        } else {
            without(text, dropped).push(last)
        },
{
    reveal(Seq::filter);
    assert(text.push(last).drop_last() =~= text);
}

/// Copies a text without the character `dropped`.
pub fn without_char(text: &str, dropped: char) -> (rest: String)
    ensures
        rest@ == without(text@, dropped),
{
    let len = text.unicode_len();
    let mut rest = String::new();
    // the characters from `kept_from` up to `i` are kept but not yet copied
    let mut kept_from: usize = 0;
    let mut i: usize = 0;
    proof {
        reveal(Seq::filter);
        assert(text@.take(0) =~= Seq::empty());
        assert(text@.subrange(0, 0) =~= Seq::empty());
    }
    for c in it: text.chars()
        invariant
            it.seq() == text@,
            len == text@.len(),
            i == it.index(),
            kept_from <= i <= len,
            rest@ + text@.subrange(kept_from as int, i as int) == without(
                text@.take(i as int),
                dropped,
            ),
    {
        proof {
            lemma_without_push(text@.take(i as int), c, dropped);
            assert(text@.take(i + 1) =~= text@.take(i as int).push(c));
        }
        if c == dropped {
            rest.append(text.substring_char(kept_from, i));
            assert(text@.subrange(i + 1, i + 1) =~= Seq::empty());
            assert(rest@ + text@.subrange(i + 1, i + 1) =~= rest@);
            kept_from = i + 1;
        } else {
            assert(text@.subrange(kept_from as int, i + 1) =~= text@.subrange(
                kept_from as int,
                i as int,
            ).push(c));
            assert(rest@ + text@.subrange(kept_from as int, i + 1) =~= (rest@ + text@.subrange(
                kept_from as int,
                i as int,
            )).push(c));
        }
        i += 1;
    }
    rest.append(text.substring_char(kept_from, len));
    assert(text@.take(len as int) =~= text@);
    rest
}

/// A record page address as it is handed to the address parser: without its
/// `#` characters, so that what follows the `#` counts as path and query.
pub open spec fn without_hash(address: Seq<char>) -> Seq<char> {
    without(address, '#')
}

/// What [`get_request_param`] returns for an address whose query has been
/// read, or could not be.
pub open spec fn request_param_result(
    pairs: Option<Seq<(Seq<char>, Seq<char>)>>,
    result: Result<(bool, RequestParam), SyncError>,
) -> bool {
    match pairs {
        Some(pairs) => {
            &&& result matches Ok(found)
            &&& found.0 == is_oversea(pairs)
            &&& found.1@ == request_param_of(pairs)
        },
        None => result matches Err(SyncError::InvalidUrl(_)),
    }
}

/// Reads the descriptor out of a record page address.
///
/// Fails with `InvalidUrl` exactly when the address, stripped of `#`, is no
/// absolute address.
pub fn get_request_param(url: String) -> (result: Result<(bool, RequestParam), SyncError>)
    ensures
        request_param_result(query_pairs_of(without_hash(url@)), result),
{
    let plain = without_char(url.as_str(), '#');
    match parse_query_pairs(plain.as_str()) {
        Ok(pairs) => Ok(request_param_from_pairs(&pairs)),
        Err(error) => Err(SyncError::InvalidUrl(parse_error_text(&error))),
    }
}

} // verus!
