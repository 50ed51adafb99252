//! The wire format of the remote API's request and response bodies.
//!
//! Every body is compact JSON with a fixed field order — the canonical
//! transcription of the shapes in [`crate::dto`]. Each shape has a
//! specification-level renderer over its model and a parser at a
//! position, with executable functions proved equal to them. For the
//! watchers payload the two are proved inverse: parsing a rendered
//! response yields exactly the original model.

use vstd::prelude::*;
use crate::dto::LoginResponse;
use crate::dto::LoginResponseModel;
use crate::dto::Subscription;
use crate::dto::SubscriptionModel;
use crate::dto::User;
use crate::dto::UserModel;
use crate::dto::VerifyResponse;
use crate::dto::VerifyResponseModel;
use crate::dto::Watcher;
use crate::dto::WatcherModel;
use crate::dto::WatchersResponse;
use crate::dto::WatchersResponseModel;
use crate::json::spec_quoted;
use crate::json::spec_render_opt;
use crate::json::spec_render_bool;
use crate::json::spec_render_int;
use crate::json::spec_parse_lit;
use crate::json::spec_parse_qstr;
use crate::json::spec_parse_opt;
use crate::json::spec_parse_bool;
use crate::json::spec_parse_int;
use crate::json::append_quoted;
use crate::json::append_opt;
use crate::json::append_bool;
use crate::json::append_int;
use crate::json::eat_lit;
use crate::json::take_qstr;
use crate::json::take_opt;
use crate::json::take_bool;
use crate::json::take_int;

verus! {

/// The models of a sequence of watchers.
pub open spec fn models_of(ws: Seq<Watcher>) -> Seq<WatcherModel> {
    ws.map_values(|w: Watcher| w@)
}

// ---------------------------------------------------------------------
// Renderers: specification level
// ---------------------------------------------------------------------
/// The body of a login request carrying the credentials.
pub open spec fn spec_login_request_body(email: Seq<char>, password: Seq<char>) -> Seq<char> {
    "{\"email\":"@ + spec_quoted(email) + ",\"password\":"@ + spec_quoted(password) + "}"@
}

/// The wire form of a user.
pub open spec fn spec_render_user(u: UserModel) -> Seq<char> {
    "{\"id\":"@ + spec_quoted(u.id) + ",\"email\":"@ + spec_quoted(u.email) + ",\"name\":"@
        + spec_render_opt(u.name) + ",\"role\":"@ + spec_quoted(u.role) + ",\"plan\":"@
        + spec_quoted(u.plan) + "}"@
}

/// The wire form of a login response.
pub open spec fn spec_render_login_response(m: LoginResponseModel) -> Seq<char> {
    "{\"accessToken\":"@ + spec_quoted(m.access_token) + ",\"refreshToken\":"@ + spec_quoted(
        m.refresh_token,
    ) + ",\"expiresIn\":"@ + spec_render_int(m.expires_in) + ",\"user\":"@ + spec_render_user(
        m.user,
    ) + "}"@
}

/// The wire form of a subscription.
pub open spec fn spec_render_subscription(m: SubscriptionModel) -> Seq<char> {
    "{\"plan\":"@ + spec_quoted(m.plan) + ",\"status\":"@ + spec_quoted(m.status)
        + ",\"expiresAt\":"@ + spec_render_opt(m.expires_at) + "}"@
}

/// The wire form of a verification response.
pub open spec fn spec_render_verify_response(m: VerifyResponseModel) -> Seq<char> {
    "{\"valid\":"@ + spec_render_bool(m.valid) + ",\"user\":"@ + spec_render_user(m.user)
        + ",\"subscription\":"@ + spec_render_subscription(m.subscription) + "}"@
}

/// The wire form of a watcher.
pub open spec fn spec_render_watcher(w: WatcherModel) -> Seq<char> {
    "{\"id\":"@ + spec_quoted(w.id) + ",\"name\":"@ + spec_quoted(w.name) + ",\"url\":"@
        + spec_quoted(w.url) + ",\"status\":"@ + spec_quoted(w.status) + ",\"lastCheckAt\":"@
        + spec_render_opt(w.last_check_at) + "}"@
}

/// The wire form of everything after the first element of a watcher
/// list: each further element preceded by a comma, then the closing
/// bracket.
pub open spec fn spec_render_items_tail(ws: Seq<WatcherModel>) -> Seq<char>
    decreases ws.len(),
{
    if ws.len() == 0 {
        "]"@
    } else {
        ","@ + spec_render_watcher(ws[0]) + spec_render_items_tail(ws.drop_first())
    }
}

/// The wire form of a whole watcher list, brackets included.
pub open spec fn spec_render_items(ws: Seq<WatcherModel>) -> Seq<char> {
    if ws.len() == 0 {
        "[]"@
    } else {
        "["@ + spec_render_watcher(ws[0]) + spec_render_items_tail(ws.drop_first())
    }
}

/// The wire form of a watchers response.
pub open spec fn spec_render_watchers_response(m: WatchersResponseModel) -> Seq<char> {
    "{\"items\":"@ + spec_render_items(m.items) + "}"@
}

// ---------------------------------------------------------------------
// Renderers: executable level
// ---------------------------------------------------------------------
/// Builds the login request body for the given credentials.
pub fn render_login_request(email: &str, password: &str) -> (r: String)
    ensures
        r@ == spec_login_request_body(email@, password@),
{
    let mut out = String::new();
    out.append("{\"email\":");
    append_quoted(&mut out, email);
    out.append(",\"password\":");
    append_quoted(&mut out, password);
    out.append("}");
    proof {
        assert(out@ =~= spec_login_request_body(email@, password@));
    }
    out
}

/// Appends the wire form of a user to `out`.
pub fn append_user(out: &mut String, u: &User)
    ensures
        final(out)@ == old(out)@ + spec_render_user(u@),
{
    out.append("{\"id\":");
    append_quoted(out, u.id.as_str());
    out.append(",\"email\":");
    append_quoted(out, u.email.as_str());
    out.append(",\"name\":");
    append_opt(out, &u.name);
    out.append(",\"role\":");
    append_quoted(out, u.role.as_str());
    out.append(",\"plan\":");
    append_quoted(out, u.plan.as_str());
    out.append("}");
    proof {
        assert(out@ =~= old(out)@ + spec_render_user(u@));
    }
}

/// Renders a login response as its wire form.
pub fn render_login_response(m: &LoginResponse) -> (r: String)
    ensures
        r@ == spec_render_login_response(m@),
{
    let mut out = String::new();
    out.append("{\"accessToken\":");
    append_quoted(&mut out, m.access_token.as_str());
    out.append(",\"refreshToken\":");
    append_quoted(&mut out, m.refresh_token.as_str());
    out.append(",\"expiresIn\":");
    append_int(&mut out, m.expires_in);
    out.append(",\"user\":");
    append_user(&mut out, &m.user);
    out.append("}");
    proof {
        assert(out@ =~= spec_render_login_response(m@));
    }
    out
}

/// Appends the wire form of a subscription to `out`.
pub fn append_subscription(out: &mut String, m: &Subscription)
    ensures
        final(out)@ == old(out)@ + spec_render_subscription(m@),
{
    out.append("{\"plan\":");
    append_quoted(out, m.plan.as_str());
    out.append(",\"status\":");
    append_quoted(out, m.status.as_str());
    out.append(",\"expiresAt\":");
    append_opt(out, &m.expires_at);
    out.append("}");
    proof {
        assert(out@ =~= old(out)@ + spec_render_subscription(m@));
    }
}

/// Renders a verification response as its wire form.
pub fn render_verify_response(m: &VerifyResponse) -> (r: String)
    ensures
        r@ == spec_render_verify_response(m@),
{
    let mut out = String::new();
    out.append("{\"valid\":");
    append_bool(&mut out, m.valid);
    out.append(",\"user\":");
    append_user(&mut out, &m.user);
    out.append(",\"subscription\":");
    append_subscription(&mut out, &m.subscription);
    out.append("}");
    proof {
        assert(out@ =~= spec_render_verify_response(m@));
    }
    out
}

/// Appends the wire form of a watcher to `out`.
pub fn append_watcher(out: &mut String, w: &Watcher)
    ensures
        final(out)@ == old(out)@ + spec_render_watcher(w@),
{
    out.append("{\"id\":");
    append_quoted(out, w.id.as_str());
    out.append(",\"name\":");
    append_quoted(out, w.name.as_str());
    out.append(",\"url\":");
    append_quoted(out, w.url.as_str());
    out.append(",\"status\":");
    append_quoted(out, w.status.as_str());
    out.append(",\"lastCheckAt\":");
    append_opt(out, &w.last_check_at);
    out.append("}");
    proof {
        assert(out@ =~= old(out)@ + spec_render_watcher(w@));
    }
}

/// Renders one watcher as its wire form.
pub fn render_watcher(w: &Watcher) -> (r: String)
    ensures
        r@ == spec_render_watcher(w@),
{
    let mut out = String::new();
    append_watcher(&mut out, w);
    proof {
        assert(out@ =~= spec_render_watcher(w@));
    }
    out
}

/// Appends the wire forms of the watchers from index `from` on,
/// comma-led, and the closing bracket.
fn append_items_from(out: &mut String, items: &Vec<Watcher>, from: usize)
    requires
        from <= items@.len(),
    ensures
        final(out)@ == old(out)@ + spec_render_items_tail(models_of(items@).skip(from as int)),
    decreases items@.len() - from,
{
    if from == items.len() {
        out.append("]");
        proof {
            assert(models_of(items@).skip(from as int) =~= Seq::<WatcherModel>::empty());
        }
    } else {
        out.append(",");
        append_watcher(out, &items[from]);
        append_items_from(out, items, from + 1);
        proof {
            let ms = models_of(items@);
            assert(ms.skip(from as int)[0] == items@[from as int]@);
            assert(ms.skip(from as int).drop_first() =~= ms.skip(from + 1));
            assert(out@ =~= old(out)@ + spec_render_items_tail(ms.skip(from as int)));
        }
    }
}

/// Appends the wire form of a whole watcher list to `out`.
pub fn append_items(out: &mut String, items: &Vec<Watcher>)
    ensures
        final(out)@ == old(out)@ + spec_render_items(models_of(items@)),
{
    if items.len() == 0 {
        out.append("[]");
        proof {
            assert(models_of(items@).len() == 0);
        }
    } else {
        out.append("[");
        append_watcher(out, &items[0]);
        append_items_from(out, items, 1);
        proof {
            let ms = models_of(items@);
            assert(ms[0] == items@[0]@);
            assert(ms.drop_first() =~= ms.skip(1));
            assert(out@ =~= old(out)@ + spec_render_items(ms));
        }
    }
}

/// Renders a watcher list as its wire form.
pub fn render_items(items: &Vec<Watcher>) -> (r: String)
    ensures
        r@ == spec_render_items(models_of(items@)),
{
    let mut out = String::new();
    append_items(&mut out, items);
    proof {
        assert(out@ =~= spec_render_items(models_of(items@)));
    }
    out
}

/// Renders a watchers response as its wire form.
pub fn render_watchers_response(w: &WatchersResponse) -> (r: String)
    ensures
        r@ == spec_render_watchers_response(w@),
{
    let mut out = String::new();
    out.append("{\"items\":");
    append_items(&mut out, &w.items);
    out.append("}");
    proof {
        assert(out@ =~= spec_render_watchers_response(w@));
    }
    out
}

// ---------------------------------------------------------------------
// Parsers: specification level
// ---------------------------------------------------------------------
/// Parses a user at position `i`.
pub open spec fn spec_parse_user(s: Seq<char>, i: int) -> Option<(UserModel, int)> {
    match spec_parse_lit(s, i, "{\"id\":"@) {
        Option::Some(j1) => match spec_parse_qstr(s, j1) {
            Option::Some((id, j2)) => match spec_parse_lit(s, j2, ",\"email\":"@) {
                Option::Some(j3) => match spec_parse_qstr(s, j3) {
                    Option::Some((email, j4)) => match spec_parse_lit(s, j4, ",\"name\":"@) {
                        Option::Some(j5) => match spec_parse_opt(s, j5) {
                            Option::Some((name, j6)) => match spec_parse_lit(s, j6, ",\"role\":"@) {
                                Option::Some(j7) => match spec_parse_qstr(s, j7) {
                                    Option::Some((role, j8)) => match spec_parse_lit(
                                        s,
                                        j8,
                                        ",\"plan\":"@,
                                    ) {
                                        Option::Some(j9) => match spec_parse_qstr(s, j9) {
                                            Option::Some((plan, j10)) => match spec_parse_lit(
                                                s,
                                                j10,
                                                "}"@,
                                            ) {
                                                Option::Some(j11) => Option::Some(
                                                    (UserModel { id, email, name, role, plan }, j11),
                                                ),
                                                Option::None => Option::None,
                                            },
                                            Option::None => Option::None,
                                        },
                                        Option::None => Option::None,
                                    },
                                    Option::None => Option::None,
                                },
                                Option::None => Option::None,
                            },
                            Option::None => Option::None,
                        },
                        Option::None => Option::None,
                    },
                    Option::None => Option::None,
                },
                Option::None => Option::None,
            },
            Option::None => Option::None,
        },
        Option::None => Option::None,
    }
}

/// Parses a login response at position `i`.
pub open spec fn spec_parse_login_response(s: Seq<char>, i: int) -> Option<
    (LoginResponseModel, int),
> {
    match spec_parse_lit(s, i, "{\"accessToken\":"@) {
        Option::Some(j1) => match spec_parse_qstr(s, j1) {
            Option::Some((access_token, j2)) => match spec_parse_lit(s, j2, ",\"refreshToken\":"@) {
                Option::Some(j3) => match spec_parse_qstr(s, j3) {
                    Option::Some((refresh_token, j4)) => match spec_parse_lit(
                        s,
                        j4,
                        ",\"expiresIn\":"@,
                    ) {
                        Option::Some(j5) => match spec_parse_int(s, j5) {
                            Option::Some((expires_in, j6)) => match spec_parse_lit(
                                s,
                                j6,
                                ",\"user\":"@,
                            ) {
                                Option::Some(j7) => match spec_parse_user(s, j7) {
                                    Option::Some((user, j8)) => match spec_parse_lit(s, j8, "}"@) {
                                        Option::Some(j9) => Option::Some(
                                            (
                                                LoginResponseModel {
                                                    access_token,
                                                    refresh_token,
                                                    expires_in,
                                                    user,
                                                },
                                                j9,
                                            ),
                                        ),
                                        Option::None => Option::None,
                                    },
                                    Option::None => Option::None,
                                },
                                Option::None => Option::None,
                            },
                            Option::None => Option::None,
                        },
                        Option::None => Option::None,
                    },
                    Option::None => Option::None,
                },
                Option::None => Option::None,
            },
            Option::None => Option::None,
        },
        Option::None => Option::None,
    }
}

/// Parses a subscription at position `i`.
pub open spec fn spec_parse_subscription(s: Seq<char>, i: int) -> Option<(SubscriptionModel, int)> {
    match spec_parse_lit(s, i, "{\"plan\":"@) {
        Option::Some(j1) => match spec_parse_qstr(s, j1) {
            Option::Some((plan, j2)) => match spec_parse_lit(s, j2, ",\"status\":"@) {
                Option::Some(j3) => match spec_parse_qstr(s, j3) {
                    Option::Some((status, j4)) => match spec_parse_lit(s, j4, ",\"expiresAt\":"@) {
                        Option::Some(j5) => match spec_parse_opt(s, j5) {
                            Option::Some((expires_at, j6)) => match spec_parse_lit(s, j6, "}"@) {
                                Option::Some(j7) => Option::Some(
                                    (SubscriptionModel { plan, status, expires_at }, j7),
                                ),
                                Option::None => Option::None,
                            },
                            Option::None => Option::None,
                        },
                        Option::None => Option::None,
                    },
                    Option::None => Option::None,
                },
                Option::None => Option::None,
            },
            Option::None => Option::None,
        },
        Option::None => Option::None,
    }
}

/// Parses a verification response at position `i`.
pub open spec fn spec_parse_verify_response(s: Seq<char>, i: int) -> Option<
    (VerifyResponseModel, int),
> {
    match spec_parse_lit(s, i, "{\"valid\":"@) {
        Option::Some(j1) => match spec_parse_bool(s, j1) {
            Option::Some((valid, j2)) => match spec_parse_lit(s, j2, ",\"user\":"@) {
                Option::Some(j3) => match spec_parse_user(s, j3) {
                    Option::Some((user, j4)) => match spec_parse_lit(s, j4, ",\"subscription\":"@) {
                        Option::Some(j5) => match spec_parse_subscription(s, j5) {
                            Option::Some((subscription, j6)) => match spec_parse_lit(s, j6, "}"@) {
                                Option::Some(j7) => Option::Some(
                                    (VerifyResponseModel { valid, user, subscription }, j7),
                                ),
                                Option::None => Option::None,
                            },
                            Option::None => Option::None,
                        },
                        Option::None => Option::None,
                    },
                    Option::None => Option::None,
                },
                Option::None => Option::None,
            },
            Option::None => Option::None,
        },
        Option::None => Option::None,
    }
}

/// Parses a watcher at position `i`.
pub open spec fn spec_parse_watcher(s: Seq<char>, i: int) -> Option<(WatcherModel, int)> {
    match spec_parse_lit(s, i, "{\"id\":"@) {
        Option::Some(j1) => match spec_parse_qstr(s, j1) {
            Option::Some((id, j2)) => match spec_parse_lit(s, j2, ",\"name\":"@) {
                Option::Some(j3) => match spec_parse_qstr(s, j3) {
                    Option::Some((name, j4)) => match spec_parse_lit(s, j4, ",\"url\":"@) {
                        Option::Some(j5) => match spec_parse_qstr(s, j5) {
                            Option::Some((url, j6)) => match spec_parse_lit(s, j6, ",\"status\":"@) {
                                Option::Some(j7) => match spec_parse_qstr(s, j7) {
                                    Option::Some((status, j8)) => match spec_parse_lit(
                                        s,
                                        j8,
                                        ",\"lastCheckAt\":"@,
                                    ) {
                                        Option::Some(j9) => match spec_parse_opt(s, j9) {
                                            Option::Some((last_check_at, j10)) => match
                                                spec_parse_lit(s, j10, "}"@) {
                                                Option::Some(j11) => Option::Some(
                                                    (
                                                        WatcherModel {
                                                            id,
                                                            name,
                                                            url,
                                                            status,
                                                            last_check_at,
                                                        },
                                                        j11,
                                                    ),
                                                ),
                                                Option::None => Option::None,
                                            },
                                            Option::None => Option::None,
                                        },
                                        Option::None => Option::None,
                                    },
                                    Option::None => Option::None,
                                },
                                Option::None => Option::None,
                            },
                            Option::None => Option::None,
                        },
                        Option::None => Option::None,
                    },
                    Option::None => Option::None,
                },
                Option::None => Option::None,
            },
            Option::None => Option::None,
        },
        Option::None => Option::None,
    }
}

/// Parses everything after the first element of a watcher list: either
/// the closing bracket, or a comma and a further element, repeatedly.
pub open spec fn spec_parse_items_tail(s: Seq<char>, i: int) -> Option<(Seq<WatcherModel>, int)>
    decreases s.len() - i,
{
    match spec_parse_lit(s, i, "]"@) {
        Option::Some(j) => Option::Some((Seq::<WatcherModel>::empty(), j)),
        Option::None => match spec_parse_lit(s, i, ","@) {
            Option::Some(j) => match spec_parse_watcher(s, j) {
                Option::Some((w, k)) => if i < k <= s.len() {
                    match spec_parse_items_tail(s, k) {
                        Option::Some((tail, m)) => Option::Some((seq![w] + tail, m)),
                        Option::None => Option::None,
                    }
                } else {
                    Option::None
                },
                Option::None => Option::None,
            },
            Option::None => Option::None,
        },
    }
}

/// Parses a whole watcher list at position `i`, brackets included.
pub open spec fn spec_parse_items(s: Seq<char>, i: int) -> Option<(Seq<WatcherModel>, int)> {
    match spec_parse_lit(s, i, "["@) {
        Option::Some(j) => match spec_parse_lit(s, j, "]"@) {
            Option::Some(k) => Option::Some((Seq::<WatcherModel>::empty(), k)),
            Option::None => match spec_parse_watcher(s, j) {
                Option::Some((w, k)) => if j < k <= s.len() {
                    match spec_parse_items_tail(s, k) {
                        Option::Some((tail, m)) => Option::Some((seq![w] + tail, m)),
                        Option::None => Option::None,
                    }
                } else {
                    Option::None
                },
                Option::None => Option::None,
            },
        },
        Option::None => Option::None,
    }
}

/// Parses a watchers response at position `i`.
pub open spec fn spec_parse_watchers_response(s: Seq<char>, i: int) -> Option<
    (WatchersResponseModel, int),
> {
    match spec_parse_lit(s, i, "{\"items\":"@) {
        Option::Some(j) => match spec_parse_items(s, j) {
            Option::Some((items, k)) => match spec_parse_lit(s, k, "}"@) {
                Option::Some(m) => Option::Some((WatchersResponseModel { items }, m)),
                Option::None => Option::None,
            },
            Option::None => Option::None,
        },
        Option::None => Option::None,
    }
}

/// Parses a whole body as a login response: the parse must consume the
/// body exactly.
pub open spec fn spec_decode_login_response(s: Seq<char>) -> Option<LoginResponseModel> {
    match spec_parse_login_response(s, 0) {
        Option::Some((m, j)) => if j == s.len() {
            Option::Some(m)
        } else {
            Option::None
        },
        Option::None => Option::None,
    }
}

/// Parses a whole body as a verification response: the parse must
/// consume the body exactly.
pub open spec fn spec_decode_verify_response(s: Seq<char>) -> Option<VerifyResponseModel> {
    match spec_parse_verify_response(s, 0) {
        Option::Some((m, j)) => if j == s.len() {
            Option::Some(m)
        } else {
            Option::None
        },
        Option::None => Option::None,
    }
}

/// Parses a whole body as a watchers response: the parse must consume
/// the body exactly.
pub open spec fn spec_decode_watchers_response(s: Seq<char>) -> Option<WatchersResponseModel> {
    match spec_parse_watchers_response(s, 0) {
        Option::Some((m, j)) => if j == s.len() {
            Option::Some(m)
        } else {
            Option::None
        },
        Option::None => Option::None,
    }
}

// ---------------------------------------------------------------------
// Parsers: executable level
// ---------------------------------------------------------------------
/// Executable counterpart of [`spec_parse_user`].
pub fn take_user(s: &str, n: usize, i: usize) -> (r: Option<(User, usize)>)
    requires
        n == s@.len(),
    ensures
        r is Some <==> spec_parse_user(s@, i as int) is Some,
        r matches Some(p) ==> spec_parse_user(s@, i as int) == Some((p.0@, p.1 as int)),
{
    let j1 = match eat_lit(s, n, i, "{\"id\":") {
        Some(j) => j,
        None => {
            return None;
        },
    };
    let (id, j2) = match take_qstr(s, n, j1) {
        Some(p) => p,
        None => {
            return None;
        },
    };
    let j3 = match eat_lit(s, n, j2, ",\"email\":") {
        Some(j) => j,
        None => {
            return None;
        },
    };
    let (email, j4) = match take_qstr(s, n, j3) {
        Some(p) => p,
        None => {
            return None;
        },
    };
    let j5 = match eat_lit(s, n, j4, ",\"name\":") {
        Some(j) => j,
        None => {
            return None;
        },
    };
    let (name, j6) = match take_opt(s, n, j5) {
        Some(p) => p,
        None => {
            return None;
        },
    };
    let j7 = match eat_lit(s, n, j6, ",\"role\":") {
        Some(j) => j,
        None => {
            return None;
        },
    };
    let (role, j8) = match take_qstr(s, n, j7) {
        Some(p) => p,
        None => {
            return None;
        },
    };
    let j9 = match eat_lit(s, n, j8, ",\"plan\":") {
        Some(j) => j,
        None => {
            return None;
        },
    };
    let (plan, j10) = match take_qstr(s, n, j9) {
        Some(p) => p,
        None => {
            return None;
        },
    };
    let j11 = match eat_lit(s, n, j10, "}") {
        Some(j) => j,
        None => {
            return None;
        },
    };
    Some((User { id, email, name, role, plan }, j11))
}

/// Executable counterpart of [`spec_parse_login_response`].
pub fn take_login_response(s: &str, n: usize, i: usize) -> (r: Option<(LoginResponse, usize)>)
    requires
        n == s@.len(),
    ensures
        r is Some <==> spec_parse_login_response(s@, i as int) is Some,
        r matches Some(p) ==> spec_parse_login_response(s@, i as int) == Some((p.0@, p.1 as int)),
{
    let j1 = match eat_lit(s, n, i, "{\"accessToken\":") {
        Some(j) => j,
        None => {
            return None;
        },
    };
    let (access_token, j2) = match take_qstr(s, n, j1) {
        Some(p) => p,
        None => {
            return None;
        },
    };
    let j3 = match eat_lit(s, n, j2, ",\"refreshToken\":") {
        Some(j) => j,
        None => {
            return None;
        },
    };
    let (refresh_token, j4) = match take_qstr(s, n, j3) {
        Some(p) => p,
        None => {
            return None;
        },
    };
    let j5 = match eat_lit(s, n, j4, ",\"expiresIn\":") {
        Some(j) => j,
        None => {
            return None;
        },
    };
    let (expires_in, j6) = match take_int(s, n, j5) {
        Some(p) => p,
        None => {
            return None;
        },
    };
    let j7 = match eat_lit(s, n, j6, ",\"user\":") {
        Some(j) => j,
        None => {
            return None;
        },
    };
    let (user, j8) = match take_user(s, n, j7) {
        Some(p) => p,
        None => {
            return None;
        },
    };
    let j9 = match eat_lit(s, n, j8, "}") {
        Some(j) => j,
        None => {
            return None;
        },
    };
    Some((LoginResponse { access_token, refresh_token, expires_in, user }, j9))
}

/// Executable counterpart of [`spec_parse_subscription`].
pub fn take_subscription(s: &str, n: usize, i: usize) -> (r: Option<(Subscription, usize)>)
    requires
        n == s@.len(),
    ensures
        r is Some <==> spec_parse_subscription(s@, i as int) is Some,
        r matches Some(p) ==> spec_parse_subscription(s@, i as int) == Some((p.0@, p.1 as int)),
{
    let j1 = match eat_lit(s, n, i, "{\"plan\":") {
        Some(j) => j,
        None => {
            return None;
        },
    };
    let (plan, j2) = match take_qstr(s, n, j1) {
        Some(p) => p,
        None => {
            return None;
        },
    };
    let j3 = match eat_lit(s, n, j2, ",\"status\":") {
        Some(j) => j,
        None => {
            return None;
        },
    };
    let (status, j4) = match take_qstr(s, n, j3) {
        Some(p) => p,
        None => {
            return None;
        },
    };
    let j5 = match eat_lit(s, n, j4, ",\"expiresAt\":") {
        Some(j) => j,
        None => {
            return None;
        },
    };
    let (expires_at, j6) = match take_opt(s, n, j5) {
        Some(p) => p,
        None => {
            return None;
        },
    };
    let j7 = match eat_lit(s, n, j6, "}") {
        Some(j) => j,
        None => {
            return None;
        },
    };
    Some((Subscription { plan, status, expires_at }, j7))
}

/// Executable counterpart of [`spec_parse_verify_response`].
pub fn take_verify_response(s: &str, n: usize, i: usize) -> (r: Option<(VerifyResponse, usize)>)
    requires
        n == s@.len(),
    ensures
        r is Some <==> spec_parse_verify_response(s@, i as int) is Some,
        r matches Some(p) ==> spec_parse_verify_response(s@, i as int) == Some((p.0@, p.1 as int)),
{
    let j1 = match eat_lit(s, n, i, "{\"valid\":") {
        Some(j) => j,
        None => {
            return None;
        },
    };
    let (valid, j2) = match take_bool(s, n, j1) {
        Some(p) => p,
        None => {
            return None;
        },
    };
    let j3 = match eat_lit(s, n, j2, ",\"user\":") {
        Some(j) => j,
        None => {
            return None;
        },
    };
    let (user, j4) = match take_user(s, n, j3) {
        Some(p) => p,
        None => {
            return None;
        },
    };
    let j5 = match eat_lit(s, n, j4, ",\"subscription\":") {
        Some(j) => j,
        None => {
            return None;
        },
    };
    let (subscription, j6) = match take_subscription(s, n, j5) {
        Some(p) => p,
        None => {
            return None;
        },
    };
    let j7 = match eat_lit(s, n, j6, "}") {
        Some(j) => j,
        None => {
            return None;
        },
    };
    Some((VerifyResponse { valid, user, subscription }, j7))
}

/// Executable counterpart of [`spec_parse_watcher`].
pub fn take_watcher(s: &str, n: usize, i: usize) -> (r: Option<(Watcher, usize)>)
    requires
        n == s@.len(),
    ensures
        r is Some <==> spec_parse_watcher(s@, i as int) is Some,
        r matches Some(p) ==> spec_parse_watcher(s@, i as int) == Some((p.0@, p.1 as int)),
{
    let j1 = match eat_lit(s, n, i, "{\"id\":") {
        Some(j) => j,
        None => {
            return None;
        },
    };
    let (id, j2) = match take_qstr(s, n, j1) {
        Some(p) => p,
        None => {
            return None;
        },
    };
    let j3 = match eat_lit(s, n, j2, ",\"name\":") {
        Some(j) => j,
        None => {
            return None;
        },
    };
    let (name, j4) = match take_qstr(s, n, j3) {
        Some(p) => p,
        None => {
            return None;
        },
    };
    let j5 = match eat_lit(s, n, j4, ",\"url\":") {
        Some(j) => j,
        None => {
            return None;
        },
    };
    let (url, j6) = match take_qstr(s, n, j5) {
        Some(p) => p,
        None => {
            return None;
        },
    };
    let j7 = match eat_lit(s, n, j6, ",\"status\":") {
        Some(j) => j,
        None => {
            return None;
        },
    };
    let (status, j8) = match take_qstr(s, n, j7) {
        Some(p) => p,
        None => {
            return None;
        },
    };
    let j9 = match eat_lit(s, n, j8, ",\"lastCheckAt\":") {
        Some(j) => j,
        None => {
            return None;
        },
    };
    let (last_check_at, j10) = match take_opt(s, n, j9) {
        Some(p) => p,
        None => {
            return None;
        },
    };
    let j11 = match eat_lit(s, n, j10, "}") {
        Some(j) => j,
        None => {
            return None;
        },
    };
    Some((Watcher { id, name, url, status, last_check_at }, j11))
}

/// Executable counterpart of [`spec_parse_items_tail`].
pub fn take_items_tail(s: &str, n: usize, i: usize) -> (r: Option<(Vec<Watcher>, usize)>)
    requires
        n == s@.len(),
    ensures
        r is Some <==> spec_parse_items_tail(s@, i as int) is Some,
        r matches Some(p) ==> spec_parse_items_tail(s@, i as int) == Some((
            models_of(p.0@),
            p.1 as int,
        )),
    decreases n - i,
{
    match eat_lit(s, n, i, "]") {
        Some(j) => {
            let v: Vec<Watcher> = Vec::new();
            proof {
                assert(models_of(v@) =~= Seq::<WatcherModel>::empty());
            }
            Some((v, j))
        },
        None => match eat_lit(s, n, i, ",") {
            Some(j) => match take_watcher(s, n, j) {
                Some(p) => {
                    let k = p.1;
                    if i < k && k <= n {
                        match take_items_tail(s, n, k) {
                            Some(q) => {
                                let mut v = q.0;
                                v.insert(0, p.0);
                                proof {
                                    assert(models_of(v@) =~= seq![p.0@] + models_of(q.0@));
                                }
                                Some((v, q.1))
                            },
                            None => None,
                        }
                    } else {
                        None
                    }
                },
                None => None,
            },
            None => None,
        },
    }
}

/// Executable counterpart of [`spec_parse_items`].
pub fn take_items(s: &str, n: usize, i: usize) -> (r: Option<(Vec<Watcher>, usize)>)
    requires
        n == s@.len(),
    ensures
        r is Some <==> spec_parse_items(s@, i as int) is Some,
        r matches Some(p) ==> spec_parse_items(s@, i as int) == Some((models_of(p.0@), p.1 as int)),
{
    match eat_lit(s, n, i, "[") {
        Some(j) => match eat_lit(s, n, j, "]") {
            Some(k) => {
                let v: Vec<Watcher> = Vec::new();
                proof {
                    assert(models_of(v@) =~= Seq::<WatcherModel>::empty());
                }
                Some((v, k))
            },
            None => match take_watcher(s, n, j) {
                Some(p) => {
                    let k = p.1;
                    if j < k && k <= n {
                        match take_items_tail(s, n, k) {
                            Some(q) => {
                                let mut v = q.0;
                                v.insert(0, p.0);
                                proof {
                                    assert(models_of(v@) =~= seq![p.0@] + models_of(q.0@));
                                }
                                Some((v, q.1))
                            },
                            None => None,
                        }
                    } else {
                        None
                    }
                },
                None => None,
            },
        },
        None => None,
    }
}

/// Executable counterpart of [`spec_parse_watchers_response`].
pub fn take_watchers_response(s: &str, n: usize, i: usize) -> (r: Option<(WatchersResponse, usize)>)
    requires
        n == s@.len(),
    ensures
        r is Some <==> spec_parse_watchers_response(s@, i as int) is Some,
        r matches Some(p) ==> spec_parse_watchers_response(s@, i as int) == Some((
            p.0@,
            p.1 as int,
        )),
{
    match eat_lit(s, n, i, "{\"items\":") {
        Some(j) => match take_items(s, n, j) {
            Some(p) => match eat_lit(s, n, p.1, "}") {
                Some(m) => Some((WatchersResponse { items: p.0 }, m)),
                None => None,
            },
            None => None,
        },
        None => None,
    }
}

// ---------------------------------------------------------------------
// Round trip: parsing a rendered watchers payload yields the original
// ---------------------------------------------------------------------
/// Splitting a known concatenation: when the stretch of `s` from `i`
/// to `j` reads `a` then `b`, each part stands at its own position.
pub proof fn lemma_peel(s: Seq<char>, i: int, j: int, a: Seq<char>, b: Seq<char>)
    requires
        0 <= i <= j <= s.len(),
        s.subrange(i, j) == a + b,
    ensures
        j == i + a.len() + b.len(),
        s.subrange(i, i + a.len()) == a,
        s.subrange(i + a.len(), j) == b,
{
    assert((a + b).len() == j - i);
    assert(s.subrange(i, i + a.len()) =~= a) by {
        assert forall|t: int| 0 <= t < a.len() implies s.subrange(i, i + a.len())[t] == a[t] by {
            assert(s.subrange(i, j)[t] == (a + b)[t]);
        }
    }
    assert(s.subrange(i + a.len(), j) =~= b) by {
        assert forall|t: int| 0 <= t < b.len() implies s.subrange(i + a.len(), j)[t] == b[t] by {
            assert(s.subrange(i + a.len(), j)[t] == s[i + a.len() + t]);
            assert(s.subrange(i, j)[a.len() + t] == s[i + a.len() + t]);
            assert((a + b)[a.len() + t] == b[t]);
            assert(s.subrange(i, j)[a.len() + t] == (a + b)[a.len() + t]);
        }
    }
}

/// A fixed text standing at its position parses as itself.
pub proof fn lemma_parse_lit_at(s: Seq<char>, i: int, lit: Seq<char>)
    requires
        0 <= i,
        i + lit.len() <= s.len(),
        s.subrange(i, i + lit.len()) == lit,
    ensures
        spec_parse_lit(s, i, lit) == Some(i + lit.len()),
{
}

/// An escaped string body followed by its closing quote parses back to
/// the original string.
pub proof fn lemma_parse_strbody_at(s: Seq<char>, i: int, v: Seq<char>)
    requires
        0 <= i,
        i + crate::json::spec_esc(v).len() + 1 <= s.len(),
        s.subrange(i, i + crate::json::spec_esc(v).len() + 1) == crate::json::spec_esc(v) + seq![
            '"',
        ],
    ensures
        crate::json::spec_parse_strbody(s, i) == Some((v, i + crate::json::spec_esc(v).len() + 1)),
    decreases v.len(),
{
    let j = i + crate::json::spec_esc(v).len() + 1;
    if v.len() == 0 {
        assert(crate::json::spec_esc(v) =~= Seq::<char>::empty());
        assert(s.subrange(i, i + 1) =~= seq!['"']) by {
            assert(crate::json::spec_esc(v) + seq!['"'] =~= seq!['"']);
        }
        assert(s[i] == '"') by {
            assert(s.subrange(i, i + 1)[0] == s[i]);
        }
        assert(v =~= Seq::<char>::empty());
        assert(crate::json::spec_parse_strbody(s, i) == Some((v, j)));
    } else {
        let c = v[0];
        let rest = v.drop_first();
        let ec = crate::json::esc_char(c);
        let tail = crate::json::spec_esc(rest) + seq!['"'];
        assert(crate::json::spec_esc(v) == ec + crate::json::spec_esc(rest));
        assert(crate::json::spec_esc(v) + seq!['"'] =~= ec + tail);
        lemma_peel(s, i, j, ec, tail);
        let i2 = i + ec.len();
        lemma_parse_strbody_at(s, i2, rest);
        if c == '"' || c == '\\' || c == '\n' || c == '\r' || c == '\t' {
            assert(ec.len() == 2);
            assert(s[i] == '\\') by {
                assert(s.subrange(i, i + 2)[0] == s[i]);
            }
            assert(s[i + 1] == ec[1]) by {
                assert(s.subrange(i, i + 2)[1] == s[i + 1]);
            }
            assert(seq![c] + rest =~= v);
            assert(crate::json::spec_parse_strbody(s, i) == Some((v, j)));
        } else {
            assert(ec.len() == 1);
            assert(s[i] == c) by {
                assert(s.subrange(i, i + 1)[0] == s[i]);
            }
            assert(seq![s[i]] + rest =~= v);
            assert(crate::json::spec_parse_strbody(s, i) == Some((v, j)));
        }
    }
}

/// A quoted string standing at its position parses back to the
/// original string.
pub proof fn lemma_parse_qstr_at(s: Seq<char>, i: int, v: Seq<char>)
    requires
        0 <= i,
        i + spec_quoted(v).len() <= s.len(),
        s.subrange(i, i + spec_quoted(v).len()) == spec_quoted(v),
    ensures
        spec_parse_qstr(s, i) == Some((v, i + spec_quoted(v).len())),
{
    let j = i + spec_quoted(v).len();
    assert(spec_quoted(v) =~= seq!['"'] + (crate::json::spec_esc(v) + seq!['"']));
    lemma_peel(s, i, j, seq!['"'], crate::json::spec_esc(v) + seq!['"']);
    assert(s[i] == '"') by {
        assert(s.subrange(i, i + 1)[0] == s[i]);
    }
    lemma_parse_strbody_at(s, i + 1, v);
}

/// A rendered optional string standing at its position parses back to
/// the original optional.
pub proof fn lemma_parse_opt_at(s: Seq<char>, i: int, o: Option<Seq<char>>)
    requires
        0 <= i,
        i + spec_render_opt(o).len() <= s.len(),
        s.subrange(i, i + spec_render_opt(o).len()) == spec_render_opt(o),
    ensures
        spec_parse_opt(s, i) == Some((o, i + spec_render_opt(o).len())),
{
    reveal_strlit("null");
    let j = i + spec_render_opt(o).len();
    match o {
        Option::None => {
            lemma_parse_lit_at(s, i, "null"@);
        },
        Option::Some(v) => {
            assert(s[i] == '"') by {
                assert(s.subrange(i, j)[0] == s[i]);
                assert(spec_render_opt(o)[0] == '"');
            }
            if crate::json::spec_at_lit(s, i, "null"@) {
                assert(s.subrange(i, i + 4)[0] == s[i]);
                assert(false);
            }
            lemma_parse_qstr_at(s, i, v);
        },
    }
}

/// A rendered watcher standing at its position parses back to the
/// original model.
pub proof fn lemma_parse_watcher_at(s: Seq<char>, i: int, w: WatcherModel)
    requires
        0 <= i,
        i + spec_render_watcher(w).len() <= s.len(),
        s.subrange(i, i + spec_render_watcher(w).len()) == spec_render_watcher(w),
    ensures
        spec_parse_watcher(s, i) == Some((w, i + spec_render_watcher(w).len())),
{
    let a1 = "{\"id\":"@;
    let q1 = spec_quoted(w.id);
    let a2 = ",\"name\":"@;
    let q2 = spec_quoted(w.name);
    let a3 = ",\"url\":"@;
    let q3 = spec_quoted(w.url);
    let a4 = ",\"status\":"@;
    let q4 = spec_quoted(w.status);
    let a5 = ",\"lastCheckAt\":"@;
    let q5 = spec_render_opt(w.last_check_at);
    let a6 = "}"@;
    let j = i + spec_render_watcher(w).len();
    assert(s.subrange(i, j) =~= a1 + (q1 + (a2 + (q2 + (a3 + (q3 + (a4 + (q4 + (a5 + (q5
        + a6))))))))));
    lemma_peel(s, i, j, a1, q1 + (a2 + (q2 + (a3 + (q3 + (a4 + (q4 + (a5 + (q5 + a6)))))))));
    let p1 = i + a1.len();
    lemma_parse_lit_at(s, i, a1);
    lemma_peel(s, p1, j, q1, a2 + (q2 + (a3 + (q3 + (a4 + (q4 + (a5 + (q5 + a6))))))));
    let p2 = p1 + q1.len();
    lemma_parse_qstr_at(s, p1, w.id);
    lemma_peel(s, p2, j, a2, q2 + (a3 + (q3 + (a4 + (q4 + (a5 + (q5 + a6)))))));
    let p3 = p2 + a2.len();
    lemma_parse_lit_at(s, p2, a2);
    lemma_peel(s, p3, j, q2, a3 + (q3 + (a4 + (q4 + (a5 + (q5 + a6))))));
    let p4 = p3 + q2.len();
    lemma_parse_qstr_at(s, p3, w.name);
    lemma_peel(s, p4, j, a3, q3 + (a4 + (q4 + (a5 + (q5 + a6)))));
    let p5 = p4 + a3.len();
    lemma_parse_lit_at(s, p4, a3);
    lemma_peel(s, p5, j, q3, a4 + (q4 + (a5 + (q5 + a6))));
    let p6 = p5 + q3.len();
    lemma_parse_qstr_at(s, p5, w.url);
    lemma_peel(s, p6, j, a4, q4 + (a5 + (q5 + a6)));
    let p7 = p6 + a4.len();
    lemma_parse_lit_at(s, p6, a4);
    lemma_peel(s, p7, j, q4, a5 + (q5 + a6));
    let p8 = p7 + q4.len();
    lemma_parse_qstr_at(s, p7, w.status);
    lemma_peel(s, p8, j, a5, q5 + a6);
    let p9 = p8 + a5.len();
    lemma_parse_lit_at(s, p8, a5);
    lemma_peel(s, p9, j, q5, a6);
    let p10 = p9 + q5.len();
    lemma_parse_opt_at(s, p9, w.last_check_at);
    lemma_parse_lit_at(s, p10, a6);
    assert(WatcherModel {
        id: w.id,
        name: w.name,
        url: w.url,
        status: w.status,
        last_check_at: w.last_check_at,
    } =~= w);
    assert(spec_parse_watcher(s, i) == Some((w, j)));
}

/// A rendered boolean standing at its position parses back to the
/// original boolean.
pub proof fn lemma_parse_bool_at(s: Seq<char>, i: int, b: bool)
    requires
        0 <= i,
        i + spec_render_bool(b).len() <= s.len(),
        s.subrange(i, i + spec_render_bool(b).len()) == spec_render_bool(b),
    ensures
        spec_parse_bool(s, i) == Some((b, i + spec_render_bool(b).len())),
{
    reveal_strlit("true");
    reveal_strlit("false");
    if b {
        lemma_parse_lit_at(s, i, "true"@);
    } else {
        assert(s[i] == 'f') by {
            assert(s.subrange(i, i + 5)[0] == s[i]);
        }
        if crate::json::spec_at_lit(s, i, "true"@) {
            assert(s.subrange(i, i + 4)[0] == s[i]);
            assert(false);
        }
        lemma_parse_lit_at(s, i, "false"@);
    }
}

/// A rendered user standing at its position parses back to the
/// original model.
pub proof fn lemma_parse_user_at(s: Seq<char>, i: int, u: UserModel)
    requires
        0 <= i,
        i + spec_render_user(u).len() <= s.len(),
        s.subrange(i, i + spec_render_user(u).len()) == spec_render_user(u),
    ensures
        spec_parse_user(s, i) == Some((u, i + spec_render_user(u).len())),
{
    let a1 = "{\"id\":"@;
    let q1 = spec_quoted(u.id);
    let a2 = ",\"email\":"@;
    let q2 = spec_quoted(u.email);
    let a3 = ",\"name\":"@;
    let q3 = spec_render_opt(u.name);
    let a4 = ",\"role\":"@;
    let q4 = spec_quoted(u.role);
    let a5 = ",\"plan\":"@;
    let q5 = spec_quoted(u.plan);
    let a6 = "}"@;
    let j = i + spec_render_user(u).len();
    assert(s.subrange(i, j) =~= a1 + (q1 + (a2 + (q2 + (a3 + (q3 + (a4 + (q4 + (a5 + (q5
        + a6))))))))));
    lemma_peel(s, i, j, a1, q1 + (a2 + (q2 + (a3 + (q3 + (a4 + (q4 + (a5 + (q5 + a6)))))))));
    let p1 = i + a1.len();
    lemma_parse_lit_at(s, i, a1);
    lemma_peel(s, p1, j, q1, a2 + (q2 + (a3 + (q3 + (a4 + (q4 + (a5 + (q5 + a6))))))));
    let p2 = p1 + q1.len();
    lemma_parse_qstr_at(s, p1, u.id);
    lemma_peel(s, p2, j, a2, q2 + (a3 + (q3 + (a4 + (q4 + (a5 + (q5 + a6)))))));
    let p3 = p2 + a2.len();
    lemma_parse_lit_at(s, p2, a2);
    lemma_peel(s, p3, j, q2, a3 + (q3 + (a4 + (q4 + (a5 + (q5 + a6))))));
    let p4 = p3 + q2.len();
    lemma_parse_qstr_at(s, p3, u.email);
    lemma_peel(s, p4, j, a3, q3 + (a4 + (q4 + (a5 + (q5 + a6)))));
    let p5 = p4 + a3.len();
    lemma_parse_lit_at(s, p4, a3);
    lemma_peel(s, p5, j, q3, a4 + (q4 + (a5 + (q5 + a6))));
    let p6 = p5 + q3.len();
    lemma_parse_opt_at(s, p5, u.name);
    lemma_peel(s, p6, j, a4, q4 + (a5 + (q5 + a6)));
    let p7 = p6 + a4.len();
    lemma_parse_lit_at(s, p6, a4);
    lemma_peel(s, p7, j, q4, a5 + (q5 + a6));
    let p8 = p7 + q4.len();
    lemma_parse_qstr_at(s, p7, u.role);
    lemma_peel(s, p8, j, a5, q5 + a6);
    let p9 = p8 + a5.len();
    lemma_parse_lit_at(s, p8, a5);
    lemma_peel(s, p9, j, q5, a6);
    let p10 = p9 + q5.len();
    lemma_parse_qstr_at(s, p9, u.plan);
    lemma_parse_lit_at(s, p10, a6);
    assert(UserModel {
        id: u.id,
        email: u.email,
        name: u.name,
        role: u.role,
        plan: u.plan,
    } =~= u);
    assert(spec_parse_user(s, i) == Some((u, j)));
}

/// A rendered subscription standing at its position parses back to the
/// original model.
pub proof fn lemma_parse_subscription_at(s: Seq<char>, i: int, m: SubscriptionModel)
    requires
        0 <= i,
        i + spec_render_subscription(m).len() <= s.len(),
        s.subrange(i, i + spec_render_subscription(m).len()) == spec_render_subscription(m),
    ensures
        spec_parse_subscription(s, i) == Some((m, i + spec_render_subscription(m).len())),
{
    let a1 = "{\"plan\":"@;
    let q1 = spec_quoted(m.plan);
    let a2 = ",\"status\":"@;
    let q2 = spec_quoted(m.status);
    let a3 = ",\"expiresAt\":"@;
    let q3 = spec_render_opt(m.expires_at);
    let a4 = "}"@;
    let j = i + spec_render_subscription(m).len();
    assert(s.subrange(i, j) =~= a1 + (q1 + (a2 + (q2 + (a3 + (q3 + a4))))));
    lemma_peel(s, i, j, a1, q1 + (a2 + (q2 + (a3 + (q3 + a4)))));
    let p1 = i + a1.len();
    lemma_parse_lit_at(s, i, a1);
    lemma_peel(s, p1, j, q1, a2 + (q2 + (a3 + (q3 + a4))));
    let p2 = p1 + q1.len();
    lemma_parse_qstr_at(s, p1, m.plan);
    lemma_peel(s, p2, j, a2, q2 + (a3 + (q3 + a4)));
    let p3 = p2 + a2.len();
    lemma_parse_lit_at(s, p2, a2);
    lemma_peel(s, p3, j, q2, a3 + (q3 + a4));
    let p4 = p3 + q2.len();
    lemma_parse_qstr_at(s, p3, m.status);
    lemma_peel(s, p4, j, a3, q3 + a4);
    let p5 = p4 + a3.len();
    lemma_parse_lit_at(s, p4, a3);
    lemma_peel(s, p5, j, q3, a4);
    let p6 = p5 + q3.len();
    lemma_parse_opt_at(s, p5, m.expires_at);
    lemma_parse_lit_at(s, p6, a4);
    assert(SubscriptionModel { plan: m.plan, status: m.status, expires_at: m.expires_at } =~= m);
    assert(spec_parse_subscription(s, i) == Some((m, j)));
}

/// Round trip of the verification payload: decoding a rendered
/// verification response yields exactly the original model, validity
/// flag, user, and subscription preserved.
pub proof fn theorem_verify_round_trip(m: VerifyResponseModel)
    ensures
        spec_decode_verify_response(spec_render_verify_response(m)) == Some(m),
{
    let s = spec_render_verify_response(m);
    let a1 = "{\"valid\":"@;
    let q1 = spec_render_bool(m.valid);
    let a2 = ",\"user\":"@;
    let q2 = spec_render_user(m.user);
    let a3 = ",\"subscription\":"@;
    let q3 = spec_render_subscription(m.subscription);
    let a4 = "}"@;
    let j = s.len() as int;
    assert(s.subrange(0, j) =~= a1 + (q1 + (a2 + (q2 + (a3 + (q3 + a4))))));
    lemma_peel(s, 0, j, a1, q1 + (a2 + (q2 + (a3 + (q3 + a4)))));
    let p1 = a1.len() as int;
    lemma_parse_lit_at(s, 0, a1);
    lemma_peel(s, p1, j, q1, a2 + (q2 + (a3 + (q3 + a4))));
    let p2 = p1 + q1.len();
    lemma_parse_bool_at(s, p1, m.valid);
    lemma_peel(s, p2, j, a2, q2 + (a3 + (q3 + a4)));
    let p3 = p2 + a2.len();
    lemma_parse_lit_at(s, p2, a2);
    lemma_peel(s, p3, j, q2, a3 + (q3 + a4));
    let p4 = p3 + q2.len();
    lemma_parse_user_at(s, p3, m.user);
    lemma_peel(s, p4, j, a3, q3 + a4);
    let p5 = p4 + a3.len();
    lemma_parse_lit_at(s, p4, a3);
    lemma_peel(s, p5, j, q3, a4);
    let p6 = p5 + q3.len();
    lemma_parse_subscription_at(s, p5, m.subscription);
    lemma_parse_lit_at(s, p6, a4);
    assert(VerifyResponseModel { valid: m.valid, user: m.user, subscription: m.subscription }
        =~= m);
    assert(spec_parse_verify_response(s, 0) == Some((m, j)));
}

/// Round trip of the login payload: decoding a rendered login response
/// yields exactly the original model, tokens, expiry, and user
/// preserved, for every expiry a signed 64-bit value can carry.
pub proof fn theorem_login_round_trip(m: LoginResponseModel)
    requires
        i64::MIN <= m.expires_in <= i64::MAX,
    ensures
        spec_decode_login_response(spec_render_login_response(m)) == Some(m),
{
    reveal_strlit(",\"user\":");
    let s = spec_render_login_response(m);
    let a1 = "{\"accessToken\":"@;
    let q1 = spec_quoted(m.access_token);
    let a2 = ",\"refreshToken\":"@;
    let q2 = spec_quoted(m.refresh_token);
    let a3 = ",\"expiresIn\":"@;
    let q3 = spec_render_int(m.expires_in);
    let a4 = ",\"user\":"@;
    let q4 = spec_render_user(m.user);
    let a5 = "}"@;
    let j = s.len() as int;
    assert(s.subrange(0, j) =~= a1 + (q1 + (a2 + (q2 + (a3 + (q3 + (a4 + (q4 + a5))))))));
    lemma_peel(s, 0, j, a1, q1 + (a2 + (q2 + (a3 + (q3 + (a4 + (q4 + a5)))))));
    let p1 = a1.len() as int;
    lemma_parse_lit_at(s, 0, a1);
    lemma_peel(s, p1, j, q1, a2 + (q2 + (a3 + (q3 + (a4 + (q4 + a5))))));
    let p2 = p1 + q1.len();
    lemma_parse_qstr_at(s, p1, m.access_token);
    lemma_peel(s, p2, j, a2, q2 + (a3 + (q3 + (a4 + (q4 + a5)))));
    let p3 = p2 + a2.len();
    lemma_parse_lit_at(s, p2, a2);
    lemma_peel(s, p3, j, q2, a3 + (q3 + (a4 + (q4 + a5))));
    let p4 = p3 + q2.len();
    lemma_parse_qstr_at(s, p3, m.refresh_token);
    lemma_peel(s, p4, j, a3, q3 + (a4 + (q4 + a5)));
    let p5 = p4 + a3.len();
    lemma_parse_lit_at(s, p4, a3);
    lemma_peel(s, p5, j, q3, a4 + (q4 + a5));
    let p6 = p5 + q3.len();
    assert(s[p6] == ',') by {
        assert(s.subrange(p6, j)[0] == s[p6]);
        assert((a4 + (q4 + a5))[0] == a4[0]);
    }
    crate::json::lemma_parse_int_at(s, p5, m.expires_in);
    lemma_peel(s, p6, j, a4, q4 + a5);
    let p7 = p6 + a4.len();
    lemma_parse_lit_at(s, p6, a4);
    lemma_peel(s, p7, j, q4, a5);
    let p8 = p7 + q4.len();
    lemma_parse_user_at(s, p7, m.user);
    lemma_parse_lit_at(s, p8, a5);
    assert(LoginResponseModel {
        access_token: m.access_token,
        refresh_token: m.refresh_token,
        expires_in: m.expires_in,
        user: m.user,
    } =~= m);
    assert(spec_parse_login_response(s, 0) == Some((m, j)));
}

/// A rendered watcher is never empty and always opens with a brace.
pub proof fn lemma_render_watcher_head(w: WatcherModel)
    ensures
        spec_render_watcher(w).len() > 0,
        spec_render_watcher(w)[0] == '{',
{
    reveal_strlit("{\"id\":");
    let a1 = "{\"id\":"@;
    let r = spec_render_watcher(w);
    assert(r.len() >= a1.len());
    assert(r[0] == a1[0]);
}

/// The tail of a rendered watcher list standing at its position parses
/// back to the original models.
pub proof fn lemma_parse_items_tail_at(s: Seq<char>, i: int, ws: Seq<WatcherModel>)
    requires
        0 <= i,
        i + spec_render_items_tail(ws).len() <= s.len(),
        s.subrange(i, i + spec_render_items_tail(ws).len()) == spec_render_items_tail(ws),
    ensures
        spec_parse_items_tail(s, i) == Some((ws, i + spec_render_items_tail(ws).len())),
    decreases ws.len(),
{
    reveal_strlit("]");
    reveal_strlit(",");
    reveal_strlit("{\"id\":");
    let j = i + spec_render_items_tail(ws).len();
    if ws.len() == 0 {
        lemma_parse_lit_at(s, i, "]"@);
        assert(ws =~= Seq::<WatcherModel>::empty());
        assert(spec_parse_items_tail(s, i) == Some((ws, j)));
    } else {
        let wr = spec_render_watcher(ws[0]);
        let tail = spec_render_items_tail(ws.drop_first());
        assert(s.subrange(i, j) =~= ","@ + (wr + tail));
        lemma_peel(s, i, j, ","@, wr + tail);
        assert(s[i] == ',') by {
            assert(s.subrange(i, i + 1)[0] == s[i]);
        }
        if crate::json::spec_at_lit(s, i, "]"@) {
            assert(s.subrange(i, i + 1)[0] == s[i]);
            assert(false);
        }
        lemma_parse_lit_at(s, i, ","@);
        let p1 = i + 1;
        lemma_peel(s, p1, j, wr, tail);
        lemma_parse_watcher_at(s, p1, ws[0]);
        let k = p1 + wr.len();
        lemma_render_watcher_head(ws[0]);
        lemma_parse_items_tail_at(s, k, ws.drop_first());
        assert(seq![ws[0]] + ws.drop_first() =~= ws);
        assert(spec_parse_items_tail(s, i) == Some((ws, j)));
    }
}

/// A rendered watcher list standing at its position parses back to the
/// original models.
pub proof fn lemma_parse_items_at(s: Seq<char>, i: int, ws: Seq<WatcherModel>)
    requires
        0 <= i,
        i + spec_render_items(ws).len() <= s.len(),
        s.subrange(i, i + spec_render_items(ws).len()) == spec_render_items(ws),
    ensures
        spec_parse_items(s, i) == Some((ws, i + spec_render_items(ws).len())),
{
    reveal_strlit("[");
    reveal_strlit("]");
    reveal_strlit("[]");
    reveal_strlit("{\"id\":");
    let j = i + spec_render_items(ws).len();
    if ws.len() == 0 {
        assert(s.subrange(i, j) =~= "["@ + "]"@);
        lemma_peel(s, i, j, "["@, "]"@);
        lemma_parse_lit_at(s, i, "["@);
        lemma_parse_lit_at(s, i + 1, "]"@);
        assert(ws =~= Seq::<WatcherModel>::empty());
        assert(spec_parse_items(s, i) == Some((ws, j)));
    } else {
        let wr = spec_render_watcher(ws[0]);
        let tail = spec_render_items_tail(ws.drop_first());
        assert(s.subrange(i, j) =~= "["@ + (wr + tail));
        lemma_peel(s, i, j, "["@, wr + tail);
        lemma_parse_lit_at(s, i, "["@);
        let p1 = i + 1;
        lemma_peel(s, p1, j, wr, tail);
        lemma_render_watcher_head(ws[0]);
        assert(s[p1] == '{') by {
            assert(s.subrange(p1, p1 + wr.len())[0] == s[p1]);
        }
        if crate::json::spec_at_lit(s, p1, "]"@) {
            assert(s.subrange(p1, p1 + 1)[0] == s[p1]);
            assert(false);
        }
        lemma_parse_watcher_at(s, p1, ws[0]);
        let k = p1 + wr.len();
        lemma_parse_items_tail_at(s, k, ws.drop_first());
        assert(seq![ws[0]] + ws.drop_first() =~= ws);
        assert(spec_parse_items(s, i) == Some((ws, j)));
    }
}

/// Round trip of the watchers payload: decoding a rendered watchers
/// response — with zero, one, or many watchers, absent timestamps
/// included — yields exactly the original model, list order and every
/// field preserved.
pub proof fn theorem_watchers_round_trip(m: WatchersResponseModel)
    ensures
        spec_decode_watchers_response(spec_render_watchers_response(m)) == Some(m),
{
    let s = spec_render_watchers_response(m);
    let a = "{\"items\":"@;
    let b = spec_render_items(m.items);
    let c = "}"@;
    assert(s.subrange(0, s.len() as int) =~= a + (b + c));
    lemma_peel(s, 0, s.len() as int, a, b + c);
    lemma_parse_lit_at(s, 0, a);
    let p1 = a.len() as int;
    lemma_peel(s, p1, s.len() as int, b, c);
    lemma_parse_items_at(s, p1, m.items);
    let p2 = p1 + b.len();
    lemma_parse_lit_at(s, p2, c);
    assert(WatchersResponseModel { items: m.items } =~= m);
    assert(spec_parse_watchers_response(s, 0) == Some((m, s.len() as int)));
}

/// Decodes a whole body as a login response; the body must be consumed
/// exactly.
pub fn decode_login_response(s: &str) -> (r: Option<LoginResponse>)
    ensures
        r is Some <==> spec_decode_login_response(s@) is Some,
        r matches Some(m) ==> spec_decode_login_response(s@) == Some(m@),
{
    let n = s.unicode_len();
    match take_login_response(s, n, 0) {
        Some(p) => if p.1 == n {
            Some(p.0)
        } else {
            None
        },
        None => None,
    }
}

/// Decodes a whole body as a verification response; the body must be
/// consumed exactly.
pub fn decode_verify_response(s: &str) -> (r: Option<VerifyResponse>)
    ensures
        r is Some <==> spec_decode_verify_response(s@) is Some,
        r matches Some(m) ==> spec_decode_verify_response(s@) == Some(m@),
{
    let n = s.unicode_len();
    match take_verify_response(s, n, 0) {
        Some(p) => if p.1 == n {
            Some(p.0)
        } else {
            None
        },
        None => None,
    }
}

/// Decodes a whole body as a watchers response; the body must be
/// consumed exactly.
pub fn decode_watchers_response(s: &str) -> (r: Option<WatchersResponse>)
    ensures
        r is Some <==> spec_decode_watchers_response(s@) is Some,
        r matches Some(m) ==> spec_decode_watchers_response(s@) == Some(m@),
{
    let n = s.unicode_len();
    match take_watchers_response(s, n, 0) {
        Some(p) => if p.1 == n {
            Some(p.0)
        } else {
            None
        },
        None => None,
    }
}

} // verus!
