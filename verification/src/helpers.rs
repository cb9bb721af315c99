//! Small helpers: text checks, comma-separated lists, id filters, and the
//! pure decisions behind server status and deployment state queries.

use vstd::prelude::*;
use vstd::string::StrSliceExecFns;
use vstd::string::StringExecFns;

use crate::model::ContainerSummary;
use crate::model::ContainerSummaryView;
use crate::model::DockerContainerState;
use crate::model::ServerStatus;

verus! {

/// True when the word contains nothing but spaces (an empty word counts).
pub fn empty_or_only_spaces(word: &str) -> (r: bool)
    ensures
        r == forall|i: int| 0 <= i < word@.len() ==> word@[i] == ' ',
{
    let n = word.unicode_len();
    let mut k: usize = 0;
    while k < n
        invariant
            n == word@.len(),
            k <= n,
            forall|i: int| 0 <= i < k ==> word@[i] == ' ',
        decreases n - k,
    {
        if word.get_char(k) != ' ' {
            return false;
        }
        k += 1;
    }
    true
}

/// Offset of the first comma in `s`, or `s.len()` when there is none.
pub open spec fn comma_offset(s: Seq<char>) -> nat
    decreases s.len(),
{
    if s.len() == 0 {
        0
    } else if s[0] == ',' {
        0
    } else {
        1 + comma_offset(s.drop_first())
    }
}

pub proof fn lemma_comma_offset_bounds(s: Seq<char>)
    ensures
        comma_offset(s) <= s.len(),
        forall|i: int| 0 <= i < comma_offset(s) ==> s[i] != ',',
        comma_offset(s) < s.len() ==> s[comma_offset(s) as int] == ',',
    decreases s.len(),
{
    if s.len() > 0 && s[0] != ',' {
        lemma_comma_offset_bounds(s.drop_first());
        assert(forall|i: int| 1 <= i < s.len() ==> s[i] == s.drop_first()[i - 1]);
    }
}

/// The non-empty segments of `s` between commas, in order.
pub open spec fn comma_segments(s: Seq<char>) -> Seq<Seq<char>>
    decreases s.len(),
{
    let k = comma_offset(s);
    let seg = s.subrange(0, k as int);
    let rest = if k < s.len() {
        comma_segments(s.subrange(k as int + 1, s.len() as int))
    } else {
        Seq::empty()
    };
    if seg.len() > 0 {
        seq![seg] + rest
    } else {
        rest
    }
}

fn find_comma(s: &str, from: usize, n: usize) -> (k: usize)
    requires
        from <= n,
        n == s@.len(),
    ensures
        from <= k <= n,
        k - from == comma_offset(s@.subrange(from as int, n as int)),
    decreases n - from,
{
    proof {
        lemma_comma_offset_bounds(s@.subrange(from as int, n as int));
    }
    if from == n {
        from
    } else if s.get_char(from) == ',' {
        proof {
            assert(s@.subrange(from as int, n as int)[0] == s@[from as int]);
        }
        from
    } else {
        let k = find_comma(s, from + 1, n);
        proof {
            assert(s@.subrange(from as int + 1, n as int) =~= s@.subrange(
                from as int,
                n as int,
            ).drop_first());
        }
        k
    }
}

fn push_segments(s: &str, from: usize, n: usize, out: &mut Vec<String>)
    requires
        from <= n,
        n == s@.len(),
    ensures
        final(out).deep_view() == old(out).deep_view() + comma_segments(
            s@.subrange(from as int, n as int),
        ),
    decreases n - from,
{
    let ghost suffix = s@.subrange(from as int, n as int);
    let k = find_comma(s, from, n);
    proof {
        lemma_comma_offset_bounds(suffix);
    }
    if k > from {
        let seg = s.substring_char(from, k);
        out.push(seg.to_owned());
        proof {
            assert(seg@ =~= suffix.subrange(0, comma_offset(suffix) as int));
        }
    } else {
        proof {
            assert(suffix.subrange(0, 0).len() == 0);
        }
    }
    let ghost mid = out.deep_view();
    if k < n {
        push_segments(s, k + 1, n, out);
        proof {
            assert(s@.subrange(k as int + 1, n as int) =~= suffix.subrange(
                comma_offset(suffix) as int + 1,
                suffix.len() as int,
            ));
            assert(final(out).deep_view() =~= old(out).deep_view() + comma_segments(suffix));
        }
    } else {
        proof {
            assert(final(out).deep_view() =~= old(out).deep_view() + comma_segments(suffix));
        }
    }
}

/// The non-empty comma-separated pieces of `s`, as owned strings.
pub fn split_comma_nonempty(s: &str) -> (r: Vec<String>)
    ensures
        r.deep_view() == comma_segments(s@),
{
    let n = s.unicode_len();
    let mut out: Vec<String> = Vec::new();
    push_segments(s, 0, n, &mut out);
    proof {
        assert(s@.subrange(0, n as int) =~= s@);
        assert(out.deep_view() =~= comma_segments(s@));
    }
    out
}

/// Relies on str::parse, which applies `T`'s `FromStr` implementation to the
/// whole string. Nothing is claimed of the outcome: it depends on `T`.
#[verifier::external_body]
fn parse_item<T: core::str::FromStr>(s: &str) -> (r: Option<T>) {
    s.parse().ok()
}

/// Parses each non-empty comma-separated piece of the list with `T`'s string
/// parser. Which pieces parse is up to `T`; on success the result holds one
/// value per non-empty piece, in order.
pub fn parse_comma_seperated_list<T: core::str::FromStr>(comma_sep_list: &str) -> (r: Result<
    Vec<T>,
    String,
>)
    ensures
        r matches Ok(v) ==> v@.len() == comma_segments(comma_sep_list@).len(),
{
    let segs = split_comma_nonempty(comma_sep_list);
    let mut out: Vec<T> = Vec::new();
    let mut i: usize = 0;
    while i < segs.len()
        invariant
            i <= segs.len(),
            out@.len() == i,
            segs.deep_view() == comma_segments(comma_sep_list@),
        decreases segs.len() - i,
    {
        match parse_item::<T>(segs[i].as_str()) {
            Some(v) => {
                out.push(v);
            },
            Option::None => {
                let mut msg = String::from_str("error parsing string ");
                msg.append(segs[i].as_str());
                msg.append(" into the requested type");
                return Err(msg);
            },
        }
        i += 1;
    }
    Ok(out)
}

/// Builds the `--network` argument of a container run command.
pub fn parse_network(network: &str) -> (r: String)
    ensures
        r@ == " --network "@ + network@,
{
    let mut s = String::new();
    s.append(" --network ");
    s.append(network);
    proof {
        assert(s@ =~= " --network "@ + network@);
    }
    s
}

/// Appends trailing process arguments to a run command: empty stays empty,
/// anything else is prefixed with one space.
pub fn parse_process_args(process_args: &String) -> (r: String)
    ensures
        process_args@.len() == 0 ==> r@ == Seq::<char>::empty(),
        process_args@.len() > 0 ==> r@ == " "@ + process_args@,
{
    if process_args.as_str().is_empty() {
        String::new()
    } else {
        let mut s = String::new();
        s.append(" ");
        s.append(process_args.as_str());
        proof {
            assert(s@ =~= " "@ + process_args@);
        }
        s
    }
}

/// A hexadecimal digit, in either case.
pub open spec fn is_hex_char(c: char) -> bool {
    (48 <= c as u32 && c as u32 <= 57) || (97 <= c as u32 && c as u32 <= 102) || (65 <= c as u32
        && c as u32 <= 70)
}

/// The canonical shape of a store-assigned object id: exactly 24 hex digits.
pub open spec fn is_object_id(s: Seq<char>) -> bool {
    s.len() == 24 && forall|i: int| 0 <= i < s.len() ==> is_hex_char(s[i])
}

/// Whether the string has the canonical object-id shape.
pub fn matches_object_id(s: &str) -> (r: bool)
    ensures
        r == is_object_id(s@),
{
    let n = s.unicode_len();
    if n != 24 {
        return false;
    }
    let mut k: usize = 0;
    while k < n
        invariant
            n == s@.len(),
            n == 24,
            k <= n,
            forall|i: int| 0 <= i < k ==> is_hex_char(s@[i]),
        decreases n - k,
    {
        let c = s.get_char(k);
        let x = c as u32;
        if !((48 <= x && x <= 57) || (97 <= x && x <= 102) || (65 <= x && x <= 70)) {
            return false;
        }
        k += 1;
    }
    true
}

/// How a lookup string selects a record: by id when it has the canonical
/// object-id shape, by name otherwise.
pub enum IdOrNameFilter {
    Id(String),
    Name(String),
}

/// Chooses the store filter for a user-supplied id-or-name string.
pub fn id_or_name_filter(id_or_name: &str) -> (r: IdOrNameFilter)
    ensures
        is_object_id(id_or_name@) ==> (r matches IdOrNameFilter::Id(s) && s@ == id_or_name@),
        !is_object_id(id_or_name@) ==> (r matches IdOrNameFilter::Name(s) && s@ == id_or_name@),
{
    if matches_object_id(id_or_name) {
        IdOrNameFilter::Id(id_or_name.to_owned())
    } else {
        IdOrNameFilter::Name(id_or_name.to_owned())
    }
}

/// Status of a server: a disabled server is never probed; an enabled one is
/// healthy exactly when its health probe succeeded.
pub fn get_server_with_status(enabled: bool, probe_succeeded: bool) -> (r: ServerStatus)
    ensures
        !enabled ==> r == ServerStatus::Disabled,
        enabled && probe_succeeded ==> r == ServerStatus::Healthy,
        enabled && !probe_succeeded ==> r == ServerStatus::Unhealthy,
{
    if !enabled {
        ServerStatus::Disabled
    } else if probe_succeeded {
        ServerStatus::Healthy
    } else {
        ServerStatus::Unhealthy
    }
}

/// Index of the first container whose name equals `name`, if any.
pub open spec fn container_index(containers: Seq<ContainerSummaryView>, name: Seq<char>) -> int
    decreases containers.len(),
{
    if containers.len() == 0 {
        -1
    } else if containers[0].name == name {
        0
    } else {
        let rest = container_index(containers.drop_first(), name);
        if rest == -1 {
            -1
        } else {
            1 + rest
        }
    }
}

pub proof fn lemma_container_index(containers: Seq<ContainerSummaryView>, name: Seq<char>)
    ensures
        container_index(containers, name) == -1 ==> forall|i: int|
            0 <= i < containers.len() ==> containers[i].name != name,
        container_index(containers, name) != -1 ==> {
            let j = container_index(containers, name);
            &&& 0 <= j < containers.len()
            &&& containers[j].name == name
            &&& forall|i: int| 0 <= i < j ==> containers[i].name != name
        },
    decreases containers.len(),
{
    if containers.len() > 0 && containers[0].name != name {
        lemma_container_index(containers.drop_first(), name);
        assert(forall|i: int|
            1 <= i < containers.len() ==> containers[i] == containers.drop_first()[i - 1]);
    }
}

/// The deployment state the core reports: not deployed while no server is
/// attached; unknown while the server is unreachable; otherwise the state of
/// the container named after the deployment, or not deployed when the server
/// lists none.
pub fn get_deployment_state(
    server_id: &String,
    server_status: ServerStatus,
    containers: &Vec<ContainerSummary>,
    deployment_name: &String,
) -> (r: DockerContainerState)
    ensures
        server_id@.len() == 0 ==> r == DockerContainerState::NotDeployed,
        server_id@.len() > 0 && server_status != ServerStatus::Healthy ==> r
            == DockerContainerState::Unknown,
        server_id@.len() > 0 && server_status == ServerStatus::Healthy ==> {
            let j = container_index(containers.deep_view(), deployment_name@);
            if j == -1 {
                r == DockerContainerState::NotDeployed
            } else {
                r == containers.deep_view()[j].state
            }
        },
{
    if server_id.as_str().is_empty() {
        return DockerContainerState::NotDeployed;
    }
    if server_status != ServerStatus::Healthy {
        return DockerContainerState::Unknown;
    }
    let ghost cs = containers.deep_view();
    proof {
        lemma_container_index(cs, deployment_name@);
    }
    let mut k: usize = 0;
    while k < containers.len()
        invariant
            k <= containers.len(),
            cs == containers.deep_view(),
            server_id@.len() > 0,
            server_status == ServerStatus::Healthy,
            forall|i: int| 0 <= i < k ==> cs[i].name != deployment_name@,
            container_index(cs, deployment_name@) == -1 || container_index(cs, deployment_name@)
                >= k,
        decreases containers.len() - k,
    {
        proof {
            lemma_container_index(cs, deployment_name@);
        }
        if containers[k].name == *deployment_name {
            proof {
                lemma_container_index(cs, deployment_name@);
                assert(container_index(cs, deployment_name@) == k as int);
            }
            return containers[k].state;
        }
        proof {
            lemma_container_index_skip(cs, deployment_name@, k as int);
        }
        k += 1;
    }
    DockerContainerState::NotDeployed
}

proof fn lemma_container_index_skip(
    containers: Seq<ContainerSummaryView>,
    name: Seq<char>,
    k: int,
)
    requires
        0 <= k < containers.len(),
        containers[k].name != name,
        container_index(containers, name) == -1 || container_index(containers, name) >= k,
    ensures
        container_index(containers, name) == -1 || container_index(containers, name) >= k + 1,
{
    lemma_container_index(containers, name);
}

} // verus!
