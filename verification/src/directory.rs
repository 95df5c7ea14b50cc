//! The server directory: configured records and resolution of an identifier
//! prefix to exactly one record.

use vstd::prelude::*;
use crate::strutil::str_starts_with;

verus! {

/// One configured server record.
#[derive(Debug)]
pub struct Server {
    /// The record's identifier, unique within the directory.
    pub id: String,
    /// The host to connect to.
    pub host: String,
    /// The port to connect to.
    pub port: u16,
    /// The credential embedded in the connection address.
    pub password: String,
}

/// Why loading the directory or resolving a prefix failed.
#[derive(Debug)]
pub enum ServerLookupError {
    /// No record's identifier starts with the prefix.
    NotFound,
    /// Several records match: their identifiers, in directory order.
    Ambiguous(Vec<String>),
    /// The configuration file could not be read.
    FileError(String),
    /// The configuration file could not be parsed.
    ParseError(String),
}

/// Whether the record's identifier starts with the prefix.
pub open spec fn id_matches(s: Server, prefix: Seq<char>) -> bool {
    prefix.is_prefix_of(s.id@)
}

/// The identifiers of the records whose identifier starts with the prefix,
/// in directory order.
pub open spec fn matching_ids(servers: Seq<Server>, prefix: Seq<char>) -> Seq<Seq<char>>
    decreases servers.len(),
{
    if servers.len() == 0 {
        Seq::empty()
    } else if id_matches(servers.last(), prefix) {
        matching_ids(servers.drop_last(), prefix).push(servers.last().id@)
    } else {
        matching_ids(servers.drop_last(), prefix)
    }
}

/// No identifier matches the prefix exactly when the list of matching
/// identifiers is empty.
pub proof fn lemma_matching_ids_empty(servers: Seq<Server>, prefix: Seq<char>)
    ensures
        matching_ids(servers, prefix).len() == 0 <==> forall|j: int|
            0 <= j < servers.len() ==> !id_matches(#[trigger] servers[j], prefix),
    decreases servers.len(),
{
    if servers.len() > 0 {
        lemma_matching_ids_empty(servers.drop_last(), prefix);
        assert(forall|j: int| 0 <= j < servers.len() - 1 ==> #[trigger] servers[j]
            == servers.drop_last()[j]);
    }
}

/// A record matching the prefix puts at least one identifier on the list.
pub proof fn lemma_matching_ids_some(servers: Seq<Server>, prefix: Seq<char>, i: int)
    requires
        0 <= i < servers.len(),
        id_matches(servers[i], prefix),
    ensures
        matching_ids(servers, prefix).len() >= 1,
    decreases servers.len(),
{
    if i < servers.len() - 1 {
        assert(servers.drop_last()[i] == servers[i]);
        lemma_matching_ids_some(servers.drop_last(), prefix, i);
    }
}

/// Two distinct records matching the prefix put at least two identifiers on
/// the list.
pub proof fn lemma_matching_ids_two(servers: Seq<Server>, prefix: Seq<char>, i: int, j: int)
    requires
        0 <= i < servers.len(),
        0 <= j < servers.len(),
        i != j,
        id_matches(servers[i], prefix),
        id_matches(servers[j], prefix),
    ensures
        matching_ids(servers, prefix).len() >= 2,
    decreases servers.len(),
{
    let lo = if i < j { i } else { j };
    let hi = if i < j { j } else { i };
    if hi == servers.len() - 1 {
        assert(servers.drop_last()[lo] == servers[lo]);
        lemma_matching_ids_some(servers.drop_last(), prefix, lo);
    } else {
        assert(servers.drop_last()[lo] == servers[lo]);
        assert(servers.drop_last()[hi] == servers[hi]);
        lemma_matching_ids_two(servers.drop_last(), prefix, lo, hi);
    }
}

/// Resolves an identifier prefix against the directory: the single record
/// whose identifier starts with the prefix, `NotFound` when none does, and
/// `Ambiguous` with exactly the matching identifiers when several do.
pub fn find_server_by_prefix<'a>(servers: &'a [Server], prefix: &str) -> (r: Result<
    &'a Server,
    ServerLookupError,
>)
    ensures
        r matches Ok(s) ==> exists|i: int| 0 <= i < servers@.len() && *s == servers@[i]
            && id_matches(#[trigger] servers@[i], prefix@),
        r matches Ok(s) ==> forall|i: int| 0 <= i < servers@.len()
            && id_matches(#[trigger] servers@[i], prefix@) ==> servers@[i] == *s,
        r is Ok <==> matching_ids(servers@, prefix@).len() == 1,
        (r matches Err(e) && e is NotFound) <==> matching_ids(servers@, prefix@).len() == 0,
        (r matches Err(e) && e is Ambiguous) <==> matching_ids(servers@, prefix@).len() >= 2,
        r matches Err(ServerLookupError::Ambiguous(ids))
            ==> ids.deep_view() == matching_ids(servers@, prefix@),
        !(r matches Err(e) && (e is FileError || e is ParseError)),
{
    let n = servers.len();
    let mut ids: Vec<String> = Vec::new();
    let mut first: usize = 0;
    let mut i: usize = 0;
    proof {
        assert(servers@.take(0) =~= Seq::<Server>::empty());
    }
    while i < n
        invariant
            i <= n,
            n == servers@.len(),
            ids.deep_view() == matching_ids(servers@.take(i as int), prefix@),
            ids@.len() >= 1 ==> first < i && id_matches(servers@[first as int], prefix@),
            ids@.len() == 0 ==> forall|j: int| 0 <= j < i
                ==> !id_matches(#[trigger] servers@[j], prefix@),
        decreases n - i,
    {
        let ghost pre = servers@.take(i as int);
        let ghost cur = servers@.take(i as int + 1);
        proof {
            assert(cur.drop_last() =~= pre);
            assert(cur.last() == servers@[i as int]);
        }
        if str_starts_with(servers[i].id.as_str(), prefix) {
            if ids.len() == 0 {
                first = i;
            }
            let ghost old_ids = ids.deep_view();
            ids.push(servers[i].id.clone());
            proof {
                assert(ids.deep_view() =~= old_ids.push(servers@[i as int].id@));
            }
        }
        i += 1;
    }
    proof {
        assert(servers@.take(n as int) =~= servers@);
    }
    if ids.len() == 0 {
        proof {
            lemma_matching_ids_empty(servers@, prefix@);
        }
        Err(ServerLookupError::NotFound)
    } else if ids.len() == 1 {
        let s = &servers[first];
        proof {
            assert forall|j: int|
                0 <= j < servers@.len() && id_matches(#[trigger] servers@[j], prefix@)
                implies servers@[j] == servers@[first as int] by {
                if j != first as int {
                    lemma_matching_ids_two(servers@, prefix@, first as int, j);
                }
            }
        }
        Ok(s)
    } else {
        Err(ServerLookupError::Ambiguous(ids))
    }
}

/// The comma-separated text of a list of identifiers, in order.
pub open spec fn comma_join(ids: Seq<Seq<char>>) -> Seq<char>
    decreases ids.len(),
{
    if ids.len() == 0 {
        Seq::empty()
    } else if ids.len() == 1 {
        ids[0]
    } else {
        comma_join(ids.drop_last()) + ", "@ + ids.last()
    }
}

/// Joins the identifiers with `", "` between them.
fn join_ids(ids: &Vec<String>) -> (r: String)
    ensures
        r@ == comma_join(ids.deep_view()),
{
    let mut out = String::new();
    let mut i: usize = 0;
    proof {
        assert(ids.deep_view().take(0) =~= Seq::<Seq<char>>::empty());
    }
    while i < ids.len()
        invariant
            i <= ids@.len(),
            ids.deep_view().len() == ids@.len(),
            out@ == comma_join(ids.deep_view().take(i as int)),
        decreases ids@.len() - i,
    {
        let ghost dv = ids.deep_view();
        let ghost prev = out@;
        if i > 0 {
            out.append(", ");
        }
        out.append(ids[i].as_str());
        proof {
            assert(dv.take(i as int + 1).drop_last() =~= dv.take(i as int));
            assert(dv.take(i as int + 1).last() == dv[i as int]);
            assert(dv[i as int] == ids@[i as int]@);
            if i == 0 {
                assert(out@ =~= dv[0]);
                assert(dv.take(1)[0] == dv[0]);
            } else {
                assert(out@ =~= comma_join(dv.take(i as int)) + ", "@ + dv[i as int]);
            }
        }
        i += 1;
    }
    proof {
        assert(ids.deep_view().take(ids@.len() as int) =~= ids.deep_view());
    }
    out
}

impl ServerLookupError {
    /// The report text for this error, as shown on the error stream.
    pub fn message(&self) -> (r: String)
        ensures
            self is NotFound ==> r@ == "No server found with the given ID prefix"@,
            self matches ServerLookupError::Ambiguous(ids) ==> r@
                == "Ambiguous ID prefix. Multiple matches found: "@ + comma_join(ids.deep_view()),
            self matches ServerLookupError::FileError(m) ==> r@ == "File error: "@ + m@,
            self matches ServerLookupError::ParseError(m) ==> r@ == "Parse error: "@ + m@,
    {
        match self {
            ServerLookupError::NotFound => String::from_str(
                "No server found with the given ID prefix",
            ),
            ServerLookupError::Ambiguous(ids) => {
                let mut out = String::from_str("Ambiguous ID prefix. Multiple matches found: ");
                let joined = join_ids(ids);
                out.append(joined.as_str());
                out
            },
            ServerLookupError::FileError(m) => {
                let mut out = String::from_str("File error: ");
                out.append(m.as_str());
                out
            },
            ServerLookupError::ParseError(m) => {
                let mut out = String::from_str("Parse error: ");
                out.append(m.as_str());
                out
            },
        }
    }
}

/// A record matching the prefix, which no other record matches, puts exactly
/// one identifier on the list.
proof fn lemma_matching_ids_unique(servers: Seq<Server>, prefix: Seq<char>, i: int)
    requires
        0 <= i < servers.len(),
        id_matches(servers[i], prefix),
        forall|j: int| 0 <= j < servers.len() && j != i
            ==> !id_matches(#[trigger] servers[j], prefix),
    ensures
        matching_ids(servers, prefix).len() == 1,
    decreases servers.len(),
{
    if i == servers.len() - 1 {
        lemma_matching_ids_empty(servers.drop_last(), prefix);
        assert(forall|j: int| 0 <= j < servers.len() - 1 ==> #[trigger] servers.drop_last()[j]
            == servers[j]);
    } else {
        assert(servers.drop_last()[i] == servers[i]);
        assert(forall|j: int| 0 <= j < servers.len() - 1 ==> #[trigger] servers.drop_last()[j]
            == servers[j]);
        lemma_matching_ids_unique(servers.drop_last(), prefix, i);
    }
}

/// Resolving by a record's full identifier matches that record and no other,
/// provided no other record's identifier extends it. The lookup's contract
/// then returns exactly that record.
pub proof fn lemma_full_id_resolves(servers: Seq<Server>, i: int)
    requires
        0 <= i < servers.len(),
        forall|j: int| 0 <= j < servers.len() && j != i
            ==> !servers[i].id@.is_prefix_of(#[trigger] servers[j].id@),
    ensures
        id_matches(servers[i], servers[i].id@),
        matching_ids(servers, servers[i].id@).len() == 1,
        forall|j: int| 0 <= j < servers.len() && id_matches(#[trigger] servers[j], servers[i].id@)
            ==> j == i,
{
    let id = servers[i].id@;
    assert(id =~= id.subrange(0, id.len() as int));
    lemma_matching_ids_unique(servers, id, i);
}

} // verus!
