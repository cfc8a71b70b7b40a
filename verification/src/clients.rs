//! Service clients of an app: one per resource binding of its metadata
//! record, under the binding's name. A binding whose client cannot be built
//! is left out; it does not fail the app.

use crate::ctx::ApnsEndpointMetadata;
use crate::ctx::ApnsMetadata;
use crate::ctx::MysqlMetadata;
use mysql_async::Opts;
use mysql_async::Pool;
use mysql_async::UrlError;
use vstd::prelude::*;

verus! {

/// Password of the certificates of push-notification bindings: none.
pub const APNS_CERTIFICATE_PASSWORD: &'static str = "";

/// Upper bound, on every machine, of the bytes that one idle connection
/// takes in the queue of a pool: a time stamp and a pointer to the
/// connection.
pub const MYSQL_IDLE_ENTRY_BYTES: usize = 32;

/// `mysql_async::Pool`, opaque to the verifier.
#[verifier::external_type_specification]
#[verifier::external_body]
pub struct ExPool(Pool);

/// `mysql_async::Opts`, opaque to the verifier.
#[verifier::external_type_specification]
#[verifier::external_body]
pub struct ExOpts(Opts);

/// `mysql_async::UrlError`, opaque to the verifier.
#[verifier::external_type_specification]
#[verifier::external_body]
pub struct ExUrlError(UrlError);

/// `a2::Client`, opaque to the verifier.
#[verifier::external_type_specification]
#[verifier::external_body]
pub struct ExApnsClient(a2::Client);

/// `a2::Error`, opaque to the verifier.
#[verifier::external_type_specification]
#[verifier::external_body]
pub struct ExApnsError(a2::Error);

/// Whether `mysql_async` takes `url` as the address of a database: what
/// `Opts::from_url` decides by parsing the text, and nothing else.
pub uninterp spec fn mysql_url_accepted(url: Seq<char>) -> bool;

/// The upper bound on pooled connections in the options that
/// `Opts::from_url` reads from `url`: the `pool_max` parameter of the URL,
/// or the driver's default where the URL has none.
pub uninterp spec fn mysql_url_pool_max(url: Seq<char>) -> usize;

/// The URL that connection options were read from.
pub uninterp spec fn opts_made_from(opts: Opts) -> Seq<char>;

/// The upper bound on pooled connections that connection options hold.
pub uninterp spec fn opts_pool_max(opts: Opts) -> usize;

/// The URL whose options a pool was made for.
pub uninterp spec fn pool_made_from(pool: Pool) -> Seq<char>;

/// The certificate archive, the password and the endpoint that a
/// push-notification client was made from.
pub uninterp spec fn apns_made_from(client: a2::Client) -> (Seq<u8>, Seq<char>, ApnsEndpointMetadata);

/// `mysql_async::Opts::from_url`: parses the URL into connection options.
/// The same URL is always taken or always refused, and always yields the
/// same bound on pooled connections.
#[verifier::external_body]
fn mysql_opts_from_url(url: &str) -> (r: Result<Opts, UrlError>)
    ensures
        r is Ok == mysql_url_accepted(url@),
        r matches Ok(opts) ==> opts_made_from(opts) == url@ && opts_pool_max(opts) == mysql_url_pool_max(url@),
{
    Opts::from_url(url)
}

/// `Opts::pool_opts`, `PoolOpts::constraints` and `PoolConstraints::max`:
/// the upper bound on pooled connections that the options hold.
#[verifier::external_body]
fn mysql_pool_max(opts: &Opts) -> (max: usize)
    ensures
        max == opts_pool_max(*opts),
{
    opts.pool_opts().constraints().max()
}

/// `mysql_async::Pool::new`: makes a pool for the options. No connection
/// is opened, but a queue as long as the upper bound on pooled connections
/// is set aside at once. A queue whose size in bytes is beyond what the
/// machine can address cannot be set aside, so the bound must be one whose
/// queue fits.
#[verifier::external_body]
fn mysql_pool_new(opts: Opts) -> (pool: Pool)
    requires
        mysql_queue_fits(opts_pool_max(opts)),
    ensures
        pool_made_from(pool) == opts_made_from(opts),
{
    Pool::new(opts)
}

/// `a2::Client::certificate`: reads a PKCS #12 archive with the given
/// password and makes a client for the endpoint that presents the archive's
/// certificate. No connection is opened. The password is handed on as a C
/// string and must hold no NUL character. Whether an archive is taken
/// depends on the cryptographic library of the machine, so it is not said
/// when the call succeeds; a client that comes back was made from exactly
/// what was handed in.
#[verifier::external_body]
fn apns_client_from_certificate(cert: &Vec<u8>, password: &str, endpoint: ApnsEndpointMetadata) -> (r: Result<
    a2::Client,
    a2::Error,
>)
    requires
        forall|i: int| 0 <= i < password@.len() ==> password@[i] != '\0',
    ensures
        r matches Ok(client) ==> apns_made_from(client) == (cert@, password@, endpoint),
{
    let endpoint = match endpoint {
        ApnsEndpointMetadata::Production => a2::Endpoint::Production,
        ApnsEndpointMetadata::Sandbox => a2::Endpoint::Sandbox,
    };
    a2::Client::certificate(&mut &cert[..], password, a2::ClientConfig::new(endpoint))
}

/// The names under which clients, or bindings, are kept.
pub open spec fn client_names<T>(clients: Seq<(String, T)>) -> Seq<Seq<char>> {
    clients.map_values(|client: (String, T)| client.0@)
}

/// No name stands for two entries: the list can be read as a map.
pub open spec fn names_unique<T>(pairs: Seq<(String, T)>) -> bool {
    client_names(pairs).no_duplicates()
}

/// Says whether no name stands for two entries of the list.
pub fn has_unique_names<T>(pairs: &Vec<(String, T)>) -> (r: bool)
    ensures
        r == names_unique(pairs@),
{
    let ghost names = client_names(pairs@);
    let mut i: usize = 0;
    while i < pairs.len()
        invariant
            i <= pairs@.len(),
            names == client_names(pairs@),
            forall|a: int, b: int| 0 <= a < b < i ==> names[a] != names[b],
        decreases pairs@.len() - i,
    {
        let mut j: usize = 0;
        while j < i
            invariant
                j <= i < pairs@.len(),
                names == client_names(pairs@),
                forall|a: int| 0 <= a < j ==> names[a] != names[i as int],
            decreases i - j,
        {
            if pairs[j].0 == pairs[i].0 {
                assert(names[j as int] == names[i as int]);
                return false;
            }
            j = j + 1;
        }
        i = i + 1;
    }
    assert forall|a: int, b: int| 0 <= a < names.len() && 0 <= b < names.len() && a != b implies names[a]
        != names[b] by {
        if a < b {
            assert(names[a] != names[b]);
        } else {
            assert(names[b] != names[a]);
        }
    }
    true
}

/// The client that is kept under `name`, if one is: the only one, where no
/// name stands for two entries.
pub fn find_client<'a, T>(clients: &'a Vec<(String, T)>, name: &String) -> (found: Option<&'a T>)
    requires
        names_unique(clients@),
    ensures
        found is Some == client_names(clients@).contains(name@),
        found matches Some(client) ==> forall|i: int|
            0 <= i < clients@.len() && (#[trigger] clients@[i]).0@ == name@ ==> clients@[i].1 == *client,
{
    let ghost names = client_names(clients@);
    let mut i: usize = 0;
    while i < clients.len()
        invariant
            i <= clients@.len(),
            names == client_names(clients@),
            names.no_duplicates(),
            forall|j: int| 0 <= j < i ==> names[j] != name@,
        decreases clients@.len() - i,
    {
        if clients[i].0 == *name {
            assert(names[i as int] == name@);
            assert forall|k: int| 0 <= k < clients@.len() && (#[trigger] clients@[k]).0@ == name@ implies clients@[k].1
                == clients@[i as int].1 by {
                assert(names[k] == names[i as int]);
            }
            return Some(&clients[i].1);
        }
        i = i + 1;
    }
    None
}

/// The client of one binding under the binding's name, if it could be built.
pub open spec fn built_client<T>(candidate: (String, Option<T>)) -> Option<(String, T)> {
    match candidate.1 {
        Some(client) => Some((candidate.0, client)),
        None => None,
    }
}

/// The clients that could be built, under the names of their bindings and
/// in the order of the bindings: a binding whose client could not be built
/// is left out.
pub open spec fn built_clients<T>(candidates: Seq<(String, Option<T>)>) -> Seq<(String, T)> {
    candidates.filter_map(|candidate: (String, Option<T>)| built_client(candidate))
}

/// Keeps the clients that could be built, each under the name of its binding.
pub fn collect_clients<T>(candidates: Vec<(String, Option<T>)>) -> (kept: Vec<(String, T)>)
    ensures
        kept@ == built_clients(candidates@),
{
    let ghost all = candidates@;
    let mut kept: Vec<(String, T)> = Vec::new();
    for candidate in it: candidates.into_iter()
        invariant
            it.seq() == all,
            kept@ == built_clients(all.take(it.index() as int)),
    {
        let ghost before = kept@;
        proof {
            all.lemma_filter_map_take_succ(
                |candidate: (String, Option<T>)| built_client(candidate),
                it.index() as int,
            );
        }
        match candidate.1 {
            Some(client) => {
                kept.push((candidate.0, client));
                assert(kept@ =~= before + seq![(candidate.0, client)]);
            },
            None => {
                assert(kept@ =~= before + Seq::<(String, T)>::empty());
            },
        }
    }
    assert(all.take(all.len() as int) =~= all);
    kept
}

/// Those of `names` whose place is marked in `chosen`, in their order.
pub open spec fn chosen_names(names: Seq<Seq<char>>, chosen: Seq<bool>) -> Seq<Seq<char>>
    decreases names.len(),
{
    if names.len() == 0 {
        Seq::empty()
    } else {
        let before = chosen_names(names.drop_last(), chosen.drop_last());
        if chosen.last() {
            before.push(names.last())
        } else {
            before
        }
    }
}

/// A queue of `max` idle connections can be laid out in the memory of the
/// machine: its size in bytes is within `isize::MAX`.
pub open spec fn mysql_queue_fits(max: usize) -> bool {
    max * MYSQL_IDLE_ENTRY_BYTES <= isize::MAX
}

/// Says whether a queue of `max` idle connections can be laid out in the
/// memory of the machine.
pub fn queue_fits(max: usize) -> (r: bool)
    ensures
        r == mysql_queue_fits(max),
{
    max <= (isize::MAX as usize) / MYSQL_IDLE_ENTRY_BYTES
}

/// The driver takes the URL, and the queue of the pool that the URL asks
/// for can be laid out in the memory of the machine.
pub open spec fn mysql_url_usable(url: Seq<char>) -> bool {
    mysql_url_accepted(url) && mysql_queue_fits(mysql_url_pool_max(url))
}

/// For each SQL binding, whether a pool is made for it.
pub open spec fn mysql_accepted(bindings: Seq<(String, MysqlMetadata)>) -> Seq<bool> {
    bindings.map_values(|binding: (String, MysqlMetadata)| mysql_url_usable(binding.1.url@))
}

/// The names of the SQL bindings for which a pool is made, in the order of
/// the bindings.
pub open spec fn accepted_names(bindings: Seq<(String, MysqlMetadata)>) -> Seq<Seq<char>> {
    chosen_names(client_names(bindings), mysql_accepted(bindings))
}

/// Every pool stands under the name of a binding and was made from the URL
/// of that binding.
pub open spec fn pools_made_from(pools: Seq<(String, Pool)>, bindings: Seq<(String, MysqlMetadata)>) -> bool {
    forall|k: int|
        0 <= k < pools.len() ==> exists|j: int|
            0 <= j < bindings.len() && (#[trigger] bindings[j]).0@ == (#[trigger] pools[k]).0@ && pool_made_from(
                pools[k].1,
            ) == bindings[j].1.url@
}

/// `names` are names of push-notification bindings, each at most once per
/// binding and in the order of the bindings.
pub open spec fn apns_names_kept(names: Seq<Seq<char>>, bindings: Seq<(String, ApnsMetadata)>) -> bool {
    exists|chosen: Seq<bool>| chosen.len() == bindings.len() && names == #[trigger] chosen_names(
        client_names(bindings),
        chosen,
    )
}

/// Every client stands under the name of a binding and was made from the
/// certificate and the endpoint of that binding, with no password.
pub open spec fn apns_clients_made_from(
    clients: Seq<(String, a2::Client)>,
    bindings: Seq<(String, ApnsMetadata)>,
) -> bool {
    forall|k: int|
        0 <= k < clients.len() ==> exists|j: int|
            0 <= j < bindings.len() && (#[trigger] bindings[j]).0@ == (#[trigger] clients[k]).0@ && apns_made_from(
                clients[k].1,
            ) == (bindings[j].1.cert@, APNS_CERTIFICATE_PASSWORD@, bindings[j].1.endpoint)
}

/// The kept clients carry the names of exactly the candidates that have a
/// client, in the order of the candidates.
pub proof fn lemma_built_names<T>(candidates: Seq<(String, Option<T>)>, names: Seq<Seq<char>>, built: Seq<bool>)
    requires
        names.len() == candidates.len(),
        built.len() == candidates.len(),
        forall|i: int|
            0 <= i < candidates.len() ==> (#[trigger] candidates[i]).0@ == names[i] && (candidates[i].1 is Some)
                == built[i],
    ensures
        client_names(built_clients(candidates)) == chosen_names(names, built),
    decreases candidates.len(),
{
    if candidates.len() > 0 {
        let last = candidates.len() - 1;
        lemma_built_names(candidates.drop_last(), names.drop_last(), built.drop_last());
        assert(candidates.last() == candidates[last]);
        let before = built_clients(candidates.drop_last());
        match candidates.last().1 {
            Some(client) => {
                assert(built_clients(candidates) =~= before + seq![(candidates.last().0, client)]);
                assert(client_names(built_clients(candidates)) =~= client_names(before).push(names.last()));
            },
            None => {
                assert(built_clients(candidates) =~= before);
            },
        }
    } else {
        assert(client_names(built_clients(candidates)) =~= chosen_names(names, built));
    }
}

/// Every kept client is the client of one of the candidates and stands
/// under that candidate's name.
pub proof fn lemma_built_come_from<T>(candidates: Seq<(String, Option<T>)>, k: int)
    requires
        0 <= k < built_clients(candidates).len(),
    ensures
        exists|j: int|
            0 <= j < candidates.len() && (#[trigger] candidates[j]).0 == built_clients(candidates)[k].0
                && candidates[j].1 == Some(built_clients(candidates)[k].1),
{
    let kept = built_clients(candidates);
    let pick = |candidate: (String, Option<T>)| built_client(candidate);
    assert(kept.contains(kept[k]));
    candidates.lemma_filter_map_contains(pick, kept[k]);
    let t = choose|t: (String, Option<T>)| #[trigger] candidates.contains(t) && pick(t) == Some(kept[k]);
    let j = choose|j: int| 0 <= j < candidates.len() && candidates[j] == t;
    assert(candidates[j].0 == kept[k].0 && candidates[j].1 == Some(kept[k].1));
}

/// Names picked from a list without repeats have no repeats, and each of
/// them is in the list.
pub proof fn lemma_chosen_names_unique(names: Seq<Seq<char>>, chosen: Seq<bool>)
    requires
        names.no_duplicates(),
        chosen.len() == names.len(),
    ensures
        chosen_names(names, chosen).no_duplicates(),
        forall|i: int|
            0 <= i < chosen_names(names, chosen).len() ==> names.contains(#[trigger] chosen_names(names, chosen)[i]),
    decreases names.len(),
{
    if names.len() > 0 {
        let before = chosen_names(names.drop_last(), chosen.drop_last());
        lemma_chosen_names_unique(names.drop_last(), chosen.drop_last());
        let last = names.len() - 1;
        assert forall|i: int| 0 <= i < before.len() implies names.contains(#[trigger] before[i]) && before[i]
            != names.last() by {
            let at = choose|at: int| 0 <= at < names.drop_last().len() && names.drop_last()[at] == before[i];
            assert(names[at] == before[i]);
            assert(names[at] != names[last]);
        }
        if chosen.last() {
            let all = before.push(names.last());
            assert(names[last] == names.last());
            assert forall|a: int, b: int| 0 <= a < all.len() && 0 <= b < all.len() && a != b implies all[a]
                != all[b] by {
                if a < before.len() {
                    assert(before[a] != names.last());
                }
                if b < before.len() {
                    assert(before[b] != names.last());
                }
            }
            assert forall|i: int| 0 <= i < all.len() implies names.contains(#[trigger] all[i]) by {
                if i < before.len() {
                    assert(names.contains(before[i]));
                }
            }
        }
    }
}

/// Makes a connection pool for every SQL binding whose URL the driver
/// takes, under the binding's name and in the order of the bindings. Only a
/// binding that asks for a pool whose queue the machine cannot address is
/// left out beside those. Each pool is made from the URL of
/// its binding, and names that are unique among the bindings are unique
/// among the pools. No connection is opened.
pub fn connect_mysql(bindings: &Vec<(String, MysqlMetadata)>) -> (pools: Vec<(String, Pool)>)
    ensures
        client_names(pools@) == accepted_names(bindings@),
        pools_made_from(pools@, bindings@),
        names_unique(bindings@) ==> names_unique(pools@),
{
    let mut candidates: Vec<(String, Option<Pool>)> = Vec::new();
    let mut i: usize = 0;
    while i < bindings.len()
        invariant
            i <= bindings@.len(),
            candidates@.len() == i,
            forall|j: int|
                0 <= j < i ==> (#[trigger] candidates@[j]).0@ == bindings@[j].0@ && (candidates@[j].1 is Some)
                    == mysql_url_usable(bindings@[j].1.url@),
            forall|j: int|
                0 <= j < i ==> ((#[trigger] candidates@[j]).1 matches Some(pool) ==> pool_made_from(pool)
                    == bindings@[j].1.url@),
        decreases bindings@.len() - i,
    {
        let pool = match mysql_opts_from_url(bindings[i].1.url.as_str()) {
            Ok(opts) => {
                if queue_fits(mysql_pool_max(&opts)) {
                    Some(mysql_pool_new(opts))
                } else {
                    None
                }
            },
            Err(_) => None,
        };
        candidates.push((bindings[i].0.clone(), pool));
        i = i + 1;
    }
    let ghost made = candidates@;
    let pools = collect_clients(candidates);
    proof {
        lemma_built_names(made, client_names(bindings@), mysql_accepted(bindings@));
        assert forall|k: int| 0 <= k < pools@.len() implies exists|j: int|
            0 <= j < bindings@.len() && (#[trigger] bindings@[j]).0@ == (#[trigger] pools@[k]).0@ && pool_made_from(
                pools@[k].1,
            ) == bindings@[j].1.url@ by {
            lemma_built_come_from(made, k);
            let j = choose|j: int|
                0 <= j < made.len() && (#[trigger] made[j]).0 == pools@[k].0 && made[j].1 == Some(pools@[k].1);
            assert(bindings@[j].0@ == pools@[k].0@);
        }
        if names_unique(bindings@) {
            lemma_chosen_names_unique(client_names(bindings@), mysql_accepted(bindings@));
        }
    }
    pools
}

/// Makes a client for every push-notification binding whose certificate
/// can be read, under the binding's name and in the order of the bindings.
/// Each client is made from the certificate and the endpoint of its
/// binding, with no password, and names that are unique among the bindings
/// are unique among the clients. No connection is opened. Which
/// certificates can be read is for the cryptographic library to say.
pub fn connect_apns(bindings: &Vec<(String, ApnsMetadata)>) -> (clients: Vec<(String, a2::Client)>)
    ensures
        apns_names_kept(client_names(clients@), bindings@),
        apns_clients_made_from(clients@, bindings@),
        names_unique(bindings@) ==> names_unique(clients@),
{
    proof {
        reveal_strlit("");
    }
    let mut candidates: Vec<(String, Option<a2::Client>)> = Vec::new();
    let mut i: usize = 0;
    while i < bindings.len()
        invariant
            i <= bindings@.len(),
            candidates@.len() == i,
            APNS_CERTIFICATE_PASSWORD@.len() == 0,
            forall|j: int| 0 <= j < i ==> (#[trigger] candidates@[j]).0@ == bindings@[j].0@,
            forall|j: int|
                0 <= j < i ==> ((#[trigger] candidates@[j]).1 matches Some(client) ==> apns_made_from(client) == (
                    bindings@[j].1.cert@,
                    APNS_CERTIFICATE_PASSWORD@,
                    bindings@[j].1.endpoint,
                )),
        decreases bindings@.len() - i,
    {
        let client = match apns_client_from_certificate(
            &bindings[i].1.cert,
            APNS_CERTIFICATE_PASSWORD,
            bindings[i].1.endpoint,
        ) {
            Ok(client) => Some(client),
            Err(_) => None,
        };
        candidates.push((bindings[i].0.clone(), client));
        i = i + 1;
    }
    let ghost made = candidates@;
    let clients = collect_clients(candidates);
    proof {
        let built = made.map_values(|candidate: (String, Option<a2::Client>)| candidate.1 is Some);
        lemma_built_names(made, client_names(bindings@), built);
        assert(client_names(clients@) == chosen_names(client_names(bindings@), built));
        assert forall|k: int| 0 <= k < clients@.len() implies exists|j: int|
            0 <= j < bindings@.len() && (#[trigger] bindings@[j]).0@ == (#[trigger] clients@[k]).0@
                && apns_made_from(clients@[k].1) == (
                bindings@[j].1.cert@,
                APNS_CERTIFICATE_PASSWORD@,
                bindings@[j].1.endpoint,
            ) by {
            lemma_built_come_from(made, k);
            let j = choose|j: int|
                0 <= j < made.len() && (#[trigger] made[j]).0 == clients@[k].0 && made[j].1 == Some(clients@[k].1);
            assert(bindings@[j].0@ == clients@[k].0@);
        }
        if names_unique(bindings@) {
            lemma_chosen_names_unique(client_names(bindings@), built);
        }
    }
    clients
}

} // verus!
