//! Response handlers: each command is bound to one, which turns the lines of
//! its reply into the command's result.

use vstd::prelude::*;
use core::marker::PhantomData;
use crate::entity::{FromRecord, ListEntry, Track};
use crate::error::{DecodeError, DecodeErrorView, ErrorView, MpdError};
use crate::fields::err_view;
use crate::group::{group_records, group_spec, records_view, LeadingKeys, Record};
use crate::response::{kvs_view, strs_view, tokenize, tokenize_spec, KeyValue};

verus! {

pub trait ResponseHandler {
    type Output;

    /// `r` is what this handler makes of a successful reply with these pairs.
    spec fn decodes(kvs: Seq<(Seq<char>, Seq<char>)>, r: Result<Self::Output, MpdError>) -> bool;

    /// Decodes the pairs of a successful reply.
    fn decode(kvs: Vec<KeyValue>) -> (r: Result<Self::Output, MpdError>)
        ensures
            Self::decodes(kvs_view(kvs@), r),
    ;

    /// Handles the lines of a reply: an error that ends the reply is returned
    /// unchanged, the pairs of a successful one are decoded.
    fn handle(lines: &Vec<String>) -> (r: Result<Self::Output, MpdError>)
        ensures
            match tokenize_spec(strs_view(lines@)) {
                Ok(kvs) => Self::decodes(kvs, r),
                Err(e) => r is Err && err_view(r) == e,
            },
    {
        match tokenize(lines) {
            Ok(kvs) => Self::decode(kvs),
            Err(e) => Err(e),
        }
    }
}

/// Acknowledgement-only replies: no data may come with the `OK`.
pub struct OkResponse;

/// Replies that are one record, decoded into one `T`.
pub struct RespMapResponse<T>(pub PhantomData<T>);

/// Track listings.
pub struct Tracks;

/// Listings that mix directories, files and playlists.
pub struct MixedResponseResponse;

pub open spec fn ack_decodes(kvs: Seq<(Seq<char>, Seq<char>)>, r: Result<(), MpdError>) -> bool {
    match r {
        Ok(_) => kvs.len() == 0,
        Err(e) => kvs.len() > 0 && e@ == ErrorView::Decode(DecodeErrorView::UnexpectedPayload),
    }
}

impl ResponseHandler for OkResponse {
    type Output = ();

    open spec fn decodes(kvs: Seq<(Seq<char>, Seq<char>)>, r: Result<(), MpdError>) -> bool {
        ack_decodes(kvs, r)
    }

    fn decode(kvs: Vec<KeyValue>) -> (r: Result<(), MpdError>) {
        if kvs.len() == 0 {
            Ok(())
        } else {
            Err(MpdError::Decode(DecodeError::UnexpectedPayload))
        }
    }
}

pub open spec fn map_decodes<T: FromRecord>(kvs: Seq<(Seq<char>, Seq<char>)>, r: Result<T, MpdError>) -> bool {
    match r {
        Ok(v) => T::record_error(kvs) is None && T::record_fields(kvs, v),
        Err(e) => T::record_error(kvs) == Some(e@),
    }
}

impl<T: FromRecord> ResponseHandler for RespMapResponse<T> {
    type Output = T;

    open spec fn decodes(kvs: Seq<(Seq<char>, Seq<char>)>, r: Result<T, MpdError>) -> bool {
        map_decodes(kvs, r)
    }

    fn decode(kvs: Vec<KeyValue>) -> (r: Result<T, MpdError>) {
        let rec = Record { pairs: kvs };
        T::from_record(&rec)
    }
}

/// The first error among the records from `i` on.
pub open spec fn list_error<T: FromRecord>(g: Seq<Seq<(Seq<char>, Seq<char>)>>, i: int) -> Option<ErrorView>
    decreases g.len() - i,
{
    if i < 0 || i >= g.len() {
        None
    } else {
        match T::record_error(g[i]) {
            Some(e) => Some(e),
            None => list_error::<T>(g, i + 1),
        }
    }
}

/// All records decode, and the list holds one value for each, in order; or the
/// first record that fails gives the error.
pub open spec fn list_decodes<T: FromRecord>(g: Seq<Seq<(Seq<char>, Seq<char>)>>, r: Result<Vec<T>, MpdError>) -> bool {
    match r {
        Ok(v) => list_error::<T>(g, 0) is None && v@.len() == g.len()
            && forall|i: int| 0 <= i < g.len() ==> T::record_fields(#[trigger] g[i], v@[i]),
        Err(e) => list_error::<T>(g, 0) == Some(e@),
    }
}

/// Groups the pairs into records and decodes each; one failure fails the whole list.
pub fn decode_list<T: FromRecord>(kvs: &Vec<KeyValue>, kind: LeadingKeys) -> (r: Result<Vec<T>, MpdError>)
    ensures
        list_decodes::<T>(group_spec(kvs_view(kvs@), kind), r),
{
    let records = group_records(kvs, kind);
    let ghost g = records_view(records@);
    let mut out: Vec<T> = Vec::new();
    let mut i: usize = 0;
    while i < records.len()
        invariant
            g == records_view(records@),
            g == group_spec(kvs_view(kvs@), kind),
            i <= records.len(),
            out@.len() == i,
            list_error::<T>(g, 0) == list_error::<T>(g, i as int),
            forall|j: int| 0 <= j < i ==> T::record_fields(#[trigger] g[j], out@[j]),
        decreases records.len() - i,
    {
        assert(records@[i as int]@ == g[i as int]);
        match T::from_record(&records[i]) {
            Ok(v) => {
                assert(list_error::<T>(g, i as int) == list_error::<T>(g, i + 1));
                out.push(v);
            },
            Err(e) => {
                assert(list_error::<T>(g, i as int) == Some(e@));
                return Err(e);
            },
        }
        i = i + 1;
    }
    assert(list_error::<T>(g, i as int) is None);
    Ok(out)
}

impl ResponseHandler for Tracks {
    type Output = Vec<Track>;

    open spec fn decodes(kvs: Seq<(Seq<char>, Seq<char>)>, r: Result<Vec<Track>, MpdError>) -> bool {
        list_decodes::<Track>(group_spec(kvs, LeadingKeys::Tracks), r)
    }

    fn decode(kvs: Vec<KeyValue>) -> (r: Result<Vec<Track>, MpdError>) {
        decode_list::<Track>(&kvs, LeadingKeys::Tracks)
    }
}

impl ResponseHandler for MixedResponseResponse {
    type Output = Vec<ListEntry>;

    open spec fn decodes(kvs: Seq<(Seq<char>, Seq<char>)>, r: Result<Vec<ListEntry>, MpdError>) -> bool {
        list_decodes::<ListEntry>(group_spec(kvs, LeadingKeys::Entries), r)
    }

    fn decode(kvs: Vec<KeyValue>) -> (r: Result<Vec<ListEntry>, MpdError>) {
        decode_list::<ListEntry>(&kvs, LeadingKeys::Entries)
    }
}

} // verus!
