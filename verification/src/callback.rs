use vstd::prelude::*;
use vstd::string::StrSliceExecFns;
use vstd::string::StringExecFns;

verus! {

/// The running state of a left-to-right scan of a callback query string:
/// the pair being read (key, value, and whether the `=` or a second `=` has
/// been passed) and the parameters committed so far. A later pair under the
/// same name overwrites an earlier one, and an `error` pair stops the scan.
#[verifier::ext_equal]
pub struct QueryScan {
    pub key: Seq<char>,
    pub val: Seq<char>,
    pub in_val: bool,
    pub skip_rest: bool,
    pub state: Option<Seq<char>>,
    pub code: Option<Seq<char>>,
    pub error: Option<Seq<char>>,
}

pub open spec fn query_scan_init() -> QueryScan {
    QueryScan {
        key: Seq::empty(),
        val: Seq::empty(),
        in_val: false,
        skip_rest: false,
        state: None,
        code: None,
        error: None,
    }
}

/// Commits the pair being read: a `state`, `code` or `error` key records its
/// value, anything else is dropped, and the pair buffer is cleared.
pub open spec fn commit_pair(s: QueryScan) -> QueryScan {
    QueryScan {
        key: Seq::empty(),
        val: Seq::empty(),
        in_val: false,
        skip_rest: false,
        state: if s.key == "state"@ {
            Some(s.val)
        } else {
            s.state
        },
        code: if s.key == "code"@ {
            Some(s.val)
        } else {
            s.code
        },
        error: if s.key == "error"@ {
            Some(s.val)
        } else {
            s.error
        },
    }
}

/// One character of the scan: `&` ends a pair, the first `=` starts the
/// value, a second `=` discards the rest of the pair, and everything after
/// a committed `error` pair is ignored.
pub open spec fn query_step(s: QueryScan, c: char) -> QueryScan {
    if s.error is Some {
        s
    } else if c == '&' {
        commit_pair(s)
    } else if s.skip_rest {
        s
    } else if c == '=' {
        if s.in_val {
            QueryScan { skip_rest: true, ..s }
        } else {
            QueryScan { in_val: true, ..s }
        }
    } else if s.in_val {
        QueryScan { val: s.val.push(c), ..s }
    } else {
        QueryScan { key: s.key.push(c), ..s }
    }
}

pub open spec fn query_scan_from(s: QueryScan, q: Seq<char>) -> QueryScan
    decreases q.len(),
{
    if q.len() == 0 {
        s
    } else {
        query_scan_from(query_step(s, q[0]), q.skip(1))
    }
}

/// The parameters a callback query string carries.
pub open spec fn scan_query(q: Seq<char>) -> QueryScan {
    let s = query_scan_from(query_scan_init(), q);
    if s.error is Some {
        s
    } else {
        commit_pair(s)
    }
}

pub open spec fn opt_or_empty(o: Option<Seq<char>>) -> Seq<char> {
    match o {
        Some(v) => v,
        None => Seq::empty(),
    }
}

pub open spec fn query_state_of(q: Seq<char>) -> Seq<char> {
    opt_or_empty(scan_query(q).state)
}

/// The running state of a scan of a `Cookie` header: pairs are separated by
/// `;`, spaces before a key are skipped, and the value of the last
/// `auth_token` cookie wins.
#[verifier::ext_equal]
pub struct CookieScan {
    pub key: Seq<char>,
    pub val: Seq<char>,
    pub in_val: bool,
    pub skip_rest: bool,
    pub found: Option<Seq<char>>,
}

pub open spec fn cookie_scan_init() -> CookieScan {
    CookieScan {
        key: Seq::empty(),
        val: Seq::empty(),
        in_val: false,
        skip_rest: false,
        found: None,
    }
}

pub open spec fn commit_cookie(s: CookieScan) -> CookieScan {
    CookieScan {
        key: Seq::empty(),
        val: Seq::empty(),
        in_val: false,
        skip_rest: false,
        found: if s.key == "auth_token"@ {
            Some(s.val)
        } else {
            s.found
        },
    }
}

pub open spec fn cookie_step(s: CookieScan, c: char) -> CookieScan {
    if c == ';' {
        commit_cookie(s)
    } else if s.skip_rest {
        s
    } else if c == '=' {
        if s.in_val {
            CookieScan { skip_rest: true, ..s }
        } else {
            CookieScan { in_val: true, ..s }
        }
    } else if s.in_val {
        CookieScan { val: s.val.push(c), ..s }
    } else if c == ' ' && s.key.len() == 0 {
        s
    } else {
        CookieScan { key: s.key.push(c), ..s }
    }
}

pub open spec fn cookie_scan_from(s: CookieScan, h: Seq<char>) -> CookieScan
    decreases h.len(),
{
    if h.len() == 0 {
        s
    } else {
        cookie_scan_from(cookie_step(s, h[0]), h.skip(1))
    }
}

/// The CSRF token a `Cookie` header carries, or the empty string.
pub open spec fn cookie_csrf_of(h: Seq<char>) -> Seq<char> {
    opt_or_empty(commit_cookie(cookie_scan_from(cookie_scan_init(), h)).found)
}

pub open spec fn opt_seq(o: Option<&String>) -> Option<Seq<char>> {
    match o {
        Some(s) => Some(s@),
        None => None,
    }
}

pub open spec fn cookie_csrf_spec(cookie: Option<Seq<char>>) -> Seq<char> {
    match cookie {
        Some(h) => cookie_csrf_of(h),
        None => Seq::empty(),
    }
}

/// What the screening in front of the code exchange decides.
#[verifier::ext_equal]
pub enum GateSpec {
    Proceed(Seq<char>),
    Reject(Seq<char>, u16),
}

/// The full decision: a missing query string, a provider `error`
/// parameter, an empty `code` or `state`, and a CSRF cookie that differs
/// from `state` are each rejected with status 400; otherwise the code goes
/// forward to the exchange.
pub open spec fn callback_gate_spec(q: Option<Seq<char>>, cookie: Option<Seq<char>>) -> GateSpec {
    match q {
        None => GateSpec::Reject("Invalid query"@, 400),
        Some(qs) => {
            let scan = scan_query(qs);
            match scan.error {
                Some(ev) => GateSpec::Reject("Error: "@ + ev, 400),
                None => {
                    let code = opt_or_empty(scan.code);
                    let state = opt_or_empty(scan.state);
                    if code.len() == 0 || state.len() == 0 {
                        GateSpec::Reject("Invalid code"@, 400)
                    } else if cookie_csrf_spec(cookie) != state {
                        GateSpec::Reject("Invalid CSRF Token"@, 400)
                    } else {
                        GateSpec::Proceed(code)
                    }
                },
            }
        },
    }
}

/// The executable answer: either the authorization code to exchange, or
/// the error message and status to send.
#[derive(Debug, PartialEq, Eq)]
pub enum CallbackGate {
    Proceed(String),
    Reject(String, u16),
}

pub open spec fn gate_abstract(r: CallbackGate) -> GateSpec {
    match r {
        CallbackGate::Proceed(c) => GateSpec::Proceed(c@),
        CallbackGate::Reject(m, s) => GateSpec::Reject(m@, s),
    }
}

/// Law: whenever the CSRF cookie value differs from the `state` parameter,
/// the callback is rejected with status 400 — whatever the code says.
pub proof fn lemma_csrf_mismatch_rejected(q: Seq<char>, cookie: Option<Seq<char>>)
    requires
        cookie_csrf_spec(cookie) != query_state_of(q),
    ensures
        callback_gate_spec(Some(q), cookie) matches GateSpec::Reject(m, st) && st == 400,
{
}

proof fn lemma_cookie_scan_concat(s: CookieScan, a: Seq<char>, b: Seq<char>)
    ensures
        cookie_scan_from(s, a + b) == cookie_scan_from(cookie_scan_from(s, a), b),
    decreases a.len(),
{
    if a.len() == 0 {
        assert(a + b =~= b);
    } else {
        assert((a + b)[0] == a[0]);
        assert((a + b).skip(1) =~= a.skip(1) + b);
        lemma_cookie_scan_concat(cookie_step(s, a[0]), a.skip(1), b);
    }
}

proof fn lemma_cookie_scan_key_chars(s: CookieScan, k: Seq<char>)
    requires
        !s.in_val,
        !s.skip_rest,
        forall|i: int| 0 <= i < k.len() ==> k[i] != ';' && k[i] != '=' && k[i] != ' ',
    ensures
        cookie_scan_from(s, k) == (CookieScan { key: s.key + k, ..s }),
    decreases k.len(),
{
    if k.len() == 0 {
        assert((CookieScan { key: s.key + k, ..s }) =~~= s);
    } else {
        let s1 = cookie_step(s, k[0]);
        assert(s1 =~~= (CookieScan { key: s.key.push(k[0]), ..s }));
        lemma_cookie_scan_key_chars(s1, k.skip(1));
        assert(s.key.push(k[0]) + k.skip(1) =~= s.key + k);
    }
}

proof fn lemma_cookie_scan_value_chars(s: CookieScan, v: Seq<char>)
    requires
        s.in_val,
        !s.skip_rest,
        forall|i: int| 0 <= i < v.len() ==> v[i] != ';' && v[i] != '=',
    ensures
        cookie_scan_from(s, v) == (CookieScan { val: s.val + v, ..s }),
    decreases v.len(),
{
    if v.len() == 0 {
        assert((CookieScan { val: s.val + v, ..s }) =~~= s);
    } else {
        let s1 = cookie_step(s, v[0]);
        assert(s1 =~~= (CookieScan { val: s.val.push(v[0]), ..s }));
        lemma_cookie_scan_value_chars(s1, v.skip(1));
        assert(s.val.push(v[0]) + v.skip(1) =~= s.val + v);
    }
}

/// Law: a `Cookie` header that carries back exactly the token the redirect
/// set is read as that very token, so the callback's CSRF comparison is
/// against the value the redirect bound. The token itself may not contain
/// `;` or `=`; the tokens the builder draws never do.
pub proof fn lemma_cookie_round_trip(csrf: Seq<char>)
    requires
        forall|i: int| 0 <= i < csrf.len() ==> csrf[i] != ';' && csrf[i] != '=',
    ensures
        cookie_csrf_of("auth_token="@ + csrf) == csrf,
{
    reveal_strlit("auth_token=");
    reveal_strlit("auth_token");
    let k = "auth_token"@;
    let header = "auth_token="@ + csrf;
    let tail = seq!['='] + csrf;
    assert(header =~= k + tail);
    lemma_cookie_scan_concat(cookie_scan_init(), k, tail);
    assert(forall|i: int| 0 <= i < k.len() ==> k[i] != ';' && k[i] != '=' && k[i] != ' ');
    lemma_cookie_scan_key_chars(cookie_scan_init(), k);
    let s1 = cookie_scan_from(cookie_scan_init(), k);
    assert(s1.key =~= k);
    assert(tail[0] == '=');
    let s2 = cookie_step(s1, '=');
    assert(cookie_scan_from(s1, tail) == cookie_scan_from(s2, tail.skip(1)));
    assert(tail.skip(1) =~= csrf);
    lemma_cookie_scan_value_chars(s2, csrf);
    let s3 = cookie_scan_from(s2, csrf);
    assert(s3.val =~= csrf);
    assert(commit_cookie(s3).found == Some(csrf));
}

struct QueryScanExec {
    key: Vec<char>,
    val: Vec<char>,
    in_val: bool,
    skip_rest: bool,
    state_val: Vec<char>,
    state_seen: bool,
    code_val: Vec<char>,
    code_seen: bool,
    error_val: Vec<char>,
    error_seen: bool,
}

spec fn qview(s: &QueryScanExec) -> QueryScan {
    QueryScan {
        key: s.key@,
        val: s.val@,
        in_val: s.in_val,
        skip_rest: s.skip_rest,
        state: if s.state_seen {
            Some(s.state_val@)
        } else {
            None
        },
        code: if s.code_seen {
            Some(s.code_val@)
        } else {
            None
        },
        error: if s.error_seen {
            Some(s.error_val@)
        } else {
            None
        },
    }
}

/// Whether the characters of `v` read exactly as `s`.
fn vec_eq_str(v: &Vec<char>, s: &str) -> (r: bool)
    ensures
        r == (v@ == s@),
{
    let n = s.unicode_len();
    if v.len() != n {
        return false;
    }
    let mut i: usize = 0;
    while i < n
        invariant
            i <= n,
            n == s@.len(),
            v@.len() == n,
            forall|j: int| 0 <= j < i ==> v@[j] == s@[j],
        decreases n - i,
    {
        if v[i] != s.get_char(i) {
            return false;
        }
        i += 1;
    }
    proof {
        assert(v@ =~= s@);
    }
    true
}

fn vec_chars_eq(a: &Vec<char>, b: &Vec<char>) -> (r: bool)
    ensures
        r == (a@ == b@),
{
    if a.len() != b.len() {
        return false;
    }
    let mut i: usize = 0;
    while i < a.len()
        invariant
            i <= a.len(),
            a@.len() == b@.len(),
            forall|j: int| 0 <= j < i ==> a@[j] == b@[j],
        decreases a.len() - i,
    {
        if a[i] != b[i] {
            return false;
        }
        i += 1;
    }
    proof {
        assert(a@ =~= b@);
    }
    true
}

/// Relies on `String`'s `FromIterator` over the characters themselves: the
/// collected string reads exactly as the vector.
#[verifier::external_body]
fn chars_to_string(v: &Vec<char>) -> (r: String)
    ensures
        r@ == v@,
{
    v.iter().collect()
}

fn commit_pair_exec(st: QueryScanExec) -> (r: QueryScanExec)
    ensures
        qview(&r) == commit_pair(qview(&st)),
{
    let ghost s0 = qview(&st);
    let QueryScanExec {
        key,
        val,
        in_val: _,
        skip_rest: _,
        mut state_val,
        mut state_seen,
        mut code_val,
        mut code_seen,
        mut error_val,
        mut error_seen,
    } = st;
    if vec_eq_str(&key, "state") {
        state_val = val;
        state_seen = true;
    } else if vec_eq_str(&key, "code") {
        code_val = val;
        code_seen = true;
    } else if vec_eq_str(&key, "error") {
        error_val = val;
        error_seen = true;
    }
    let r = QueryScanExec {
        key: Vec::new(),
        val: Vec::new(),
        in_val: false,
        skip_rest: false,
        state_val,
        state_seen,
        code_val,
        code_seen,
        error_val,
        error_seen,
    };
    proof {
        reveal_strlit("state");
        reveal_strlit("code");
        reveal_strlit("error");
        assert("state"@.len() == 5 && "code"@.len() == 4 && "error"@.len() == 5);
        assert("state"@[0] == 's' && "error"@[0] == 'e');
        assert(qview(&r) =~~= commit_pair(s0));
    }
    r
}

fn query_step_exec(st: QueryScanExec, c: char) -> (r: QueryScanExec)
    ensures
        qview(&r) == query_step(qview(&st), c),
{
    let ghost s0 = qview(&st);
    if st.error_seen {
        st
    } else if c == '&' {
        commit_pair_exec(st)
    } else if st.skip_rest {
        st
    } else if c == '=' {
        let mut st = st;
        if st.in_val {
            st.skip_rest = true;
        } else {
            st.in_val = true;
        }
        proof {
            assert(qview(&st) =~~= query_step(s0, c));
        }
        st
    } else if st.in_val {
        let mut st = st;
        st.val.push(c);
        proof {
            assert(qview(&st) =~~= query_step(s0, c));
        }
        st
    } else {
        let mut st = st;
        st.key.push(c);
        proof {
            assert(qview(&st) =~~= query_step(s0, c));
        }
        st
    }
}

proof fn lemma_query_scan_unfold(s: QueryScan, q: Seq<char>, i: int)
    requires
        0 <= i < q.len(),
    ensures
        query_scan_from(s, q.skip(i)) == query_scan_from(query_step(s, q[i]), q.skip(i + 1)),
{
    let t = q.skip(i);
    assert(t[0] == q[i]);
    assert(t.skip(1) =~= q.skip(i + 1));
}

fn scan_query_exec(q: &str) -> (st: QueryScanExec)
    ensures
        qview(&st) == query_scan_from(query_scan_init(), q@),
{
    let n = q.unicode_len();
    let mut st = QueryScanExec {
        key: Vec::new(),
        val: Vec::new(),
        in_val: false,
        skip_rest: false,
        state_val: Vec::new(),
        state_seen: false,
        code_val: Vec::new(),
        code_seen: false,
        error_val: Vec::new(),
        error_seen: false,
    };
    proof {
        assert(qview(&st) =~~= query_scan_init());
        assert(q@.skip(0) =~= q@);
    }
    let mut i: usize = 0;
    while i < n
        invariant
            i <= n,
            n == q@.len(),
            query_scan_from(query_scan_init(), q@) == query_scan_from(qview(&st), q@.skip(i as int)),
        decreases n - i,
    {
        let c = q.get_char(i);
        proof {
            lemma_query_scan_unfold(qview(&st), q@, i as int);
        }
        st = query_step_exec(st, c);
        i += 1;
    }
    proof {
        assert(q@.skip(n as int) =~= Seq::<char>::empty());
    }
    st
}

struct CookieScanExec {
    key: Vec<char>,
    val: Vec<char>,
    in_val: bool,
    skip_rest: bool,
    found_val: Vec<char>,
    found_seen: bool,
}

spec fn cview(s: &CookieScanExec) -> CookieScan {
    CookieScan {
        key: s.key@,
        val: s.val@,
        in_val: s.in_val,
        skip_rest: s.skip_rest,
        found: if s.found_seen {
            Some(s.found_val@)
        } else {
            None
        },
    }
}

fn commit_cookie_exec(st: CookieScanExec) -> (r: CookieScanExec)
    ensures
        cview(&r) == commit_cookie(cview(&st)),
{
    let CookieScanExec { key, val, in_val: _, skip_rest: _, mut found_val, mut found_seen } = st;
    if vec_eq_str(&key, "auth_token") {
        found_val = val;
        found_seen = true;
    }
    let r = CookieScanExec {
        key: Vec::new(),
        val: Vec::new(),
        in_val: false,
        skip_rest: false,
        found_val,
        found_seen,
    };
    proof {
        assert(cview(&r) =~~= commit_cookie(cview(&st)));
    }
    r
}

fn cookie_step_exec(st: CookieScanExec, c: char) -> (r: CookieScanExec)
    ensures
        cview(&r) == cookie_step(cview(&st), c),
{
    let ghost s0 = cview(&st);
    if c == ';' {
        commit_cookie_exec(st)
    } else if st.skip_rest {
        st
    } else if c == '=' {
        let mut st = st;
        if st.in_val {
            st.skip_rest = true;
        } else {
            st.in_val = true;
        }
        proof {
            assert(cview(&st) =~~= cookie_step(s0, c));
        }
        st
    } else if st.in_val {
        let mut st = st;
        st.val.push(c);
        proof {
            assert(cview(&st) =~~= cookie_step(s0, c));
        }
        st
    } else if c == ' ' && st.key.len() == 0 {
        st
    } else {
        let mut st = st;
        st.key.push(c);
        proof {
            assert(cview(&st) =~~= cookie_step(s0, c));
        }
        st
    }
}

proof fn lemma_cookie_scan_unfold(s: CookieScan, h: Seq<char>, i: int)
    requires
        0 <= i < h.len(),
    ensures
        cookie_scan_from(s, h.skip(i)) == cookie_scan_from(cookie_step(s, h[i]), h.skip(i + 1)),
{
    let t = h.skip(i);
    assert(t[0] == h[i]);
    assert(t.skip(1) =~= h.skip(i + 1));
}

/// The CSRF token carried by a `Cookie` header, or the empty string.
fn cookie_csrf_exec(h: &str) -> (v: Vec<char>)
    ensures
        v@ == cookie_csrf_of(h@),
{
    let n = h.unicode_len();
    let mut st = CookieScanExec {
        key: Vec::new(),
        val: Vec::new(),
        in_val: false,
        skip_rest: false,
        found_val: Vec::new(),
        found_seen: false,
    };
    proof {
        assert(cview(&st) =~~= cookie_scan_init());
        assert(h@.skip(0) =~= h@);
    }
    let mut i: usize = 0;
    while i < n
        invariant
            i <= n,
            n == h@.len(),
            cookie_scan_from(cookie_scan_init(), h@) == cookie_scan_from(
                cview(&st),
                h@.skip(i as int),
            ),
        decreases n - i,
    {
        let c = h.get_char(i);
        proof {
            lemma_cookie_scan_unfold(cview(&st), h@, i as int);
        }
        st = cookie_step_exec(st, c);
        i += 1;
    }
    proof {
        assert(h@.skip(n as int) =~= Seq::<char>::empty());
    }
    let st = commit_cookie_exec(st);
    if st.found_seen {
        st.found_val
    } else {
        Vec::new()
    }
}

/// Gates a callback request before any provider call: reads `code`, `state`
/// and `error` from the query string and the CSRF token from the cookie
/// header, and either rejects the request or hands back the authorization
/// code to exchange.
pub fn process_callback(query: Option<&String>, cookie_header: Option<&String>) -> (r: CallbackGate)
    ensures
        gate_abstract(r) == callback_gate_spec(opt_seq(query), opt_seq(cookie_header)),
{
    let q = match query {
        Some(q) => q,
        None => {
            return CallbackGate::Reject(String::from_str("Invalid query"), 400);
        },
    };
    let mut st = scan_query_exec(q.as_str());
    if !st.error_seen {
        st = commit_pair_exec(st);
    }
    if st.error_seen {
        let mut m = String::from_str("Error: ");
        let ev = chars_to_string(&st.error_val);
        m.append(ev.as_str());
        return CallbackGate::Reject(m, 400);
    }
    let code_empty = !st.code_seen || st.code_val.len() == 0;
    let state_empty = !st.state_seen || st.state_val.len() == 0;
    if code_empty || state_empty {
        return CallbackGate::Reject(String::from_str("Invalid code"), 400);
    }
    let csrf = match cookie_header {
        Some(h) => cookie_csrf_exec(h.as_str()),
        None => Vec::new(),
    };
    if !vec_chars_eq(&csrf, &st.state_val) {
        return CallbackGate::Reject(String::from_str("Invalid CSRF Token"), 400);
    }
    CallbackGate::Proceed(chars_to_string(&st.code_val))
}

} // verus!
