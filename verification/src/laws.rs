//! What holds of the service across its operations.

use vstd::prelude::*;

use crate::admin::{reserved_link, short_path};
use crate::app::{app_route, segment_param, segment_route, Method, Route};
use crate::redirect_handlers::is_header_value;
use crate::users::bearer_of;
use crate::tables::lists_entries;
use crate::text::{hex_value, lowercase, percent_decode, url_decoded};
use crate::utils::{begins_with, bincode_pairs, lemma_pairs_unique, pow256, LinkPairs};
use crate::users::{
    first_piece, second_piece, hex_digit_char, hex_lower, lemma_bar_index, password_accepted, password_hash_of,
    stored_password,
};
use crate::{alphabet_char, is_token, is_token_char, links_after, links_of_rows, pairs_view, DbAction};

verus! {

/// A link that `add` accepts is served once its row is stored: its short path
/// leads to the destination, and every other link is as it was.
pub proof fn law_added_link_is_served(
    links: Map<Seq<char>, Seq<char>>,
    lowered: Seq<char>,
    link: String,
    destination: String,
    other: Seq<char>,
)
    requires
        lowered != reserved_link(),
        !links.contains_key(short_path(lowered)),
        link@ == short_path(lowered),
    ensures
        links_after(links, DbAction::InsertUrl { link, destination }).contains_key(
            short_path(lowered),
        ),
        links_after(links, DbAction::InsertUrl { link, destination })[short_path(lowered)]
            == destination@,
        other != short_path(lowered) ==> links_after(
            links,
            DbAction::InsertUrl { link, destination },
        ).contains_key(other) == links.contains_key(other),
        other != short_path(lowered) && links.contains_key(other) ==> links_after(
            links,
            DbAction::InsertUrl { link, destination },
        )[other] == links[other],
{
}

/// Every short path that `add` stores begins with `/`.
pub proof fn law_short_paths_are_rooted(lowered: Seq<char>)
    ensures
        short_path(lowered).len() > 0,
        short_path(lowered)[0] == '/',
        lowered.len() > 0 && lowered[0] == '/' ==> short_path(lowered) == lowered,
        !(lowered.len() > 0 && lowered[0] == '/') ==> short_path(lowered) == seq!['/'] + lowered,
        short_path(lowered).len() == lowered.len() || short_path(lowered).len() == lowered.len()
            + 1,
        short_path(lowered).skip(short_path(lowered).len() - lowered.len()) == lowered,
{
    if !(lowered.len() > 0 && lowered[0] == '/') {
        assert((seq!['/'] + lowered).skip(1) =~= lowered);
    } else {
        assert(lowered.skip(0) =~= lowered);
    }
}

/// Deleting a link that was just added restores the table it was added to:
/// `add` stores the link `name` as `link`, and `delete`, given a segment that
/// decodes to `name`, removes the key `removed`, which is that same key.
pub proof fn law_delete_undoes_add(
    links: Map<Seq<char>, Seq<char>>,
    name: Seq<char>,
    segment: Seq<char>,
    link: String,
    destination: String,
    removed: String,
)
    requires
        lowercase(name) != reserved_link(),
        !links.contains_key(short_path(lowercase(name))),
        link@ == short_path(lowercase(name)),
        url_decoded(segment) == Some(name),
        removed@ == short_path(lowercase(url_decoded(segment)->0)),
    ensures
        removed@ == link@,
        links_after(
            links_after(links, DbAction::InsertUrl { link, destination }),
            DbAction::DeleteUrl { link: removed },
        ) == links,
{
    assert(links.insert(link@, destination@).remove(link@) =~= links);
}

/// An edited link leads to its new destination; the set of links is unchanged.
pub proof fn law_edit_redirects(links: Map<Seq<char>, Seq<char>>, link: String, destination: String)
    requires
        links.contains_key(link@),
    ensures
        links_after(links, DbAction::UpdateUrl { link, destination }).dom() == links.dom(),
        links_after(links, DbAction::UpdateUrl { link, destination })[link@] == destination@,
{
    assert(links.insert(link@, destination@).dom() =~= links.dom());
}

/// An edit changes the one link it names: every other link keeps its
/// destination, and no link comes or goes.
pub proof fn law_edit_keeps_other_links(
    links: Map<Seq<char>, Seq<char>>,
    link: String,
    destination: String,
    other: Seq<char>,
)
    requires
        other != link@,
    ensures
        links_after(links, DbAction::UpdateUrl { link, destination }).contains_key(other)
            == links.contains_key(other),
        links.contains_key(other) ==> links_after(links, DbAction::UpdateUrl { link, destination })[other]
            == links[other],
{
}

/// A deleted link is no longer served; every other link is as it was.
pub proof fn law_deleted_link_is_gone(links: Map<Seq<char>, Seq<char>>, link: String, other: Seq<char>)
    ensures
        !links_after(links, DbAction::DeleteUrl { link }).contains_key(link@),
        other != link@ ==> links_after(links, DbAction::DeleteUrl { link }).contains_key(other)
            == links.contains_key(other),
        other != link@ && links.contains_key(other) ==> links_after(
            links,
            DbAction::DeleteUrl { link },
        )[other] == links[other],
{
}

proof fn lemma_hex_lower_digits(b: Seq<u8>)
    ensures
        hex_lower(b).len() == 2 * b.len(),
        forall|i: int| 0 <= i < hex_lower(b).len() ==> #[trigger] hex_lower(b)[i] != '|',
    decreases b.len(),
{
    if b.len() > 0 {
        lemma_hex_lower_digits(b.drop_last());
        let hi = b.last() as int / 16;
        let lo = b.last() as int % 16;
        assert(hex_digit_char(hi) != '|');
        assert(hex_digit_char(lo) != '|');
        let prev = hex_lower(b.drop_last());
        assert forall|i: int| 0 <= i < hex_lower(b).len() implies #[trigger] hex_lower(b)[i] != '|' by {
            if i < prev.len() {
                assert(hex_lower(b)[i] == prev[i]);
            }
        }
    }
}

/// The password that an account is created with is accepted at login: the
/// stored `salt|hash` splits back into that salt and that hash.
pub proof fn law_created_password_logs_in(salt: Seq<char>, password: Seq<char>)
    requires
        is_token(salt),
    ensures
        password_accepted(stored_password(salt, password), password),
        first_piece(stored_password(salt, password)) == salt,
{
    let h = password_hash_of(salt, password);
    let stored = stored_password(salt, password);
    lemma_hex_lower_digits(
        crate::users::sha512(vstd::utf8::encode_utf8(crate::users::salted(salt, password))),
    );
    assert forall|j: int| 0 <= j < salt.len() implies stored[j] != '|' by {
        assert(stored[j] == salt[j]);
        assert(is_token_char(salt[j]));
    }
    assert(stored[salt.len() as int] == '|');
    lemma_bar_index(stored, salt.len() as int);
    assert(first_piece(stored) =~= salt);
    let rest = stored.skip(salt.len() as int + 1);
    assert(rest =~= h);
    assert forall|j: int| 0 <= j < h.len() implies h[j] != '|' by {}
    lemma_bar_index(h, h.len() as int);
    assert(first_piece(h) =~= h);
}

proof fn lemma_rows_with_distinct_links(rows: Seq<(Seq<char>, Seq<char>)>)
    requires
        forall|i: int, j: int| 0 <= i < j < rows.len() ==> rows[i].0 != rows[j].0,
    ensures
        forall|k: Seq<char>|
            #[trigger] links_of_rows(rows).contains_key(k) <==> exists|i: int|
                0 <= i < rows.len() && rows[i].0 == k,
        forall|i: int|
            0 <= i < rows.len() ==> links_of_rows(rows)[#[trigger] rows[i].0] == rows[i].1,
    decreases rows.len(),
{
    if rows.len() > 0 {
        let prev = rows.drop_last();
        lemma_rows_with_distinct_links(prev);
        assert forall|k: Seq<char>|
            #[trigger] links_of_rows(rows).contains_key(k) <==> exists|i: int|
                0 <= i < rows.len() && rows[i].0 == k by {
            if links_of_rows(rows).contains_key(k) {
                if k == rows.last().0 {
                    assert(rows[rows.len() - 1].0 == k);
                } else {
                    assert(links_of_rows(prev).contains_key(k));
                    let i = choose|i: int| 0 <= i < prev.len() && prev[i].0 == k;
                    assert(prev[i] == rows[i]);
                    assert(rows[i].0 == k);
                }
            }
            if exists|i: int| 0 <= i < rows.len() && rows[i].0 == k {
                let i = choose|i: int| 0 <= i < rows.len() && rows[i].0 == k;
                if i < prev.len() {
                    assert(prev[i] == rows[i]);
                    assert(prev[i].0 == k);
                    assert(links_of_rows(prev).contains_key(k));
                }
            }
        }
        assert forall|i: int| 0 <= i < rows.len() implies links_of_rows(rows)[#[trigger] rows[i].0]
            == rows[i].1 by {
            if i < prev.len() {
                assert(prev[i] == rows[i]);
                assert(rows[i].0 != rows.last().0);
            }
        }
    }
}

/// The link table that is flushed to storage reads back as the same table,
/// also where the file goes on with older bytes after the flushed ones: the
/// only pairs whose encoding begins the file are the flushed ones.
pub proof fn law_stored_table_reads_back(
    file: Seq<u8>,
    pairs: Seq<(String, String)>,
    links: Map<Seq<char>, Seq<char>>,
)
    requires
        lists_entries(pairs, links),
        file.len() < pow256(8),
        begins_with(file, bincode_pairs(pairs_view(pairs))),
    ensures
        links_of_rows(pairs_view(pairs)) == links,
        forall|p: LinkPairs| #[trigger]
            begins_with(file, bincode_pairs(p)) ==> links_of_rows(p) == links,
{
    assert forall|p: LinkPairs| #[trigger] begins_with(file, bincode_pairs(p)) implies p
        == pairs_view(pairs) by {
        lemma_pairs_unique(file, p, pairs_view(pairs));
    }
    let rows = pairs_view(pairs);
    assert forall|i: int, j: int| 0 <= i < j < rows.len() implies rows[i].0 != rows[j].0 by {
        assert(rows[i].0 == pairs[i].0@);
        assert(rows[j].0 == pairs[j].0@);
    }
    lemma_rows_with_distinct_links(rows);
    assert forall|k: Seq<char>| links_of_rows(rows).contains_key(k) <==> links.contains_key(k) by {
        if links.contains_key(k) {
            let i = choose|i: int| 0 <= i < pairs.len() && pairs[i].0@ == k;
            assert(rows[i].0 == k);
        }
        if links_of_rows(rows).contains_key(k) {
            let i = choose|i: int| 0 <= i < rows.len() && rows[i].0 == k;
            assert(pairs[i].0@ == k);
        }
    }
    assert forall|k: Seq<char>| #[trigger] links.contains_key(k) implies links_of_rows(rows)[k]
        == links[k] by {
        let i = choose|i: int| 0 <= i < pairs.len() && pairs[i].0@ == k;
        assert(rows[i] == (pairs[i].0@, pairs[i].1@));
    }
    assert(links_of_rows(rows) =~= links);
}

/// The token taken from an `Authorization` header `Bearer <t>` is `t` itself,
/// character for character, whatever `t` holds.
pub proof fn law_bearer_token_is_sent_text(t: Seq<char>)
    ensures
        bearer_of("Bearer "@ + t) == Some(t),
{
    reveal_strlit("Bearer ");
    assert(("Bearer "@ + t).take(7) =~= "Bearer "@);
    assert(("Bearer "@ + t).skip(7) =~= t);
}

/// A token as login hands it out, sent back as a bearer header, authenticates
/// exactly while its session is live.
pub proof fn law_sent_token_authenticates(sessions: Set<Seq<char>>, t: Seq<char>)
    ensures
        bearer_of("Bearer "@ + t) matches Some(sent) && (sessions.contains(sent) == sessions.contains(t)),
{
    law_bearer_token_is_sent_text(t);
}

/// A path parameter is the whole segment after its prefix, whatever characters
/// other than `/` it holds; a segment with a `/` or an empty one is none.
pub proof fn law_segment_parameter(prefix: Seq<char>, s: Seq<char>)
    ensures
        s.len() > 0 && (forall|i: int| 0 <= i < s.len() ==> s[i] != '/') ==> segment_param(
            prefix + s,
            prefix,
        ) == Some(s),
        s.len() == 0 ==> segment_param(prefix + s, prefix) is None,
        (exists|i: int| 0 <= i < s.len() && s[i] == '/') ==> segment_param(prefix + s, prefix) is None,
{
    let path = prefix + s;
    assert(path.take(prefix.len() as int) =~= prefix);
    assert(path.skip(prefix.len() as int) =~= s);
    if exists|i: int| 0 <= i < s.len() && s[i] == '/' {
        let i = choose|i: int| 0 <= i < s.len() && s[i] == '/';
        assert(path[prefix.len() + i] == '/');
    }
    if s.len() > 0 && (forall|i: int| 0 <= i < s.len() ==> s[i] != '/') {
        assert forall|i: int| prefix.len() <= i < path.len() implies path[i] != '/' by {
            assert(path[i] == s[i - prefix.len()]);
        }
    }
}

/// In the service's routing table the edit, delete and invalidate routes take
/// any non-empty segment without `/` as their parameter, whatever else it
/// holds, each by the method it is registered under; other methods get `405`.
pub proof fn law_parameter_routes(method: Method, s: Seq<char>)
    requires
        s.len() > 0,
        forall|i: int| 0 <= i < s.len() ==> s[i] != '/',
    ensures
        method == Method::Patch ==> app_route(method, "/simpleshortener/api/edit/"@ + s)
            == Route::Edit(s),
        method != Method::Patch ==> app_route(method, "/simpleshortener/api/edit/"@ + s)
            == Route::<Seq<char>>::MethodNotAllowed,
        method == Method::Delete ==> app_route(method, "/simpleshortener/api/delete/"@ + s)
            == Route::Delete(s),
        method != Method::Delete ==> app_route(method, "/simpleshortener/api/delete/"@ + s)
            == Route::<Seq<char>>::MethodNotAllowed,
        method == Method::Post ==> app_route(method, "/simpleshortener/api/token/invalidate/"@ + s)
            == Route::Invalidate(s),
        method != Method::Post ==> app_route(
            method,
            "/simpleshortener/api/token/invalidate/"@ + s,
        ) == Route::<Seq<char>>::MethodNotAllowed,
{
    reveal_strlit("/");
    reveal_strlit("/simpleshortener/");
    reveal_strlit("/simpleshortener/api/add");
    reveal_strlit("/simpleshortener/api/list");
    reveal_strlit("/simpleshortener/api/qr");
    reveal_strlit("/simpleshortener/api/token");
    reveal_strlit("/simpleshortener/api/create");
    reveal_strlit("/simpleshortener/static/panel.js");
    reveal_strlit("/simpleshortener/api/edit/");
    reveal_strlit("/simpleshortener/api/delete/");
    reveal_strlit("/simpleshortener/api/token/invalidate/");
    let edit_prefix = "/simpleshortener/api/edit/"@;
    let delete_prefix = "/simpleshortener/api/delete/"@;
    let invalidate_prefix = "/simpleshortener/api/token/invalidate/"@;
    let e = edit_prefix + s;
    let d = delete_prefix + s;
    let v = invalidate_prefix + s;
    law_segment_parameter(edit_prefix, s);
    law_segment_parameter(delete_prefix, s);
    law_segment_parameter(invalidate_prefix, s);
    // The three paths differ from every fixed path of the table.
    assert(e[17] == 'a' && d[17] == 'a' && v[17] == 'a');
    assert(e[21] == 'e' && d[21] == 'd' && v[21] == 't');
    assert(e != "/simpleshortener/static/panel.js"@ && d != "/simpleshortener/static/panel.js"@
        && v != "/simpleshortener/static/panel.js"@) by {
        assert("/simpleshortener/static/panel.js"@[17] == 's');
    }
    assert(e != "/simpleshortener/api/create"@) by {
        assert("/simpleshortener/api/create"@[21] == 'c');
    }
    assert(d != "/simpleshortener/api/create"@);
    assert(v != "/simpleshortener/api/create"@);
    // Only the matching prefix takes the path.
    assert(segment_param(d, edit_prefix) is None) by {
        assert(d.take(edit_prefix.len() as int)[21] != edit_prefix[21]);
    }
    assert(segment_param(v, edit_prefix) is None) by {
        assert(v.take(edit_prefix.len() as int)[21] != edit_prefix[21]);
    }
    assert(segment_param(v, delete_prefix) is None) by {
        assert(v.take(delete_prefix.len() as int)[21] != delete_prefix[21]);
    }
}

/// In the file-backed routing table the edit and delete routes take any
/// non-empty segment without `/` as their parameter, each by the method it is
/// registered under; other methods get `405`.
pub proof fn law_file_backed_parameter_routes(method: Method, s: Seq<char>)
    requires
        s.len() > 0,
        forall|i: int| 0 <= i < s.len() ==> s[i] != '/',
    ensures
        method == Method::Patch ==> segment_route(method, "/simpleshortener/api/edit/"@ + s)
            == Route::Edit(s),
        method != Method::Patch ==> segment_route(method, "/simpleshortener/api/edit/"@ + s)
            == Route::<Seq<char>>::MethodNotAllowed,
        method == Method::Delete ==> segment_route(method, "/simpleshortener/api/delete/"@ + s)
            == Route::Delete(s),
        method != Method::Delete ==> segment_route(method, "/simpleshortener/api/delete/"@ + s)
            == Route::<Seq<char>>::MethodNotAllowed,
{
    reveal_strlit("/");
    reveal_strlit("/simpleshortener/api");
    reveal_strlit("/simpleshortener/api/");
    reveal_strlit("/simpleshortener/api/add");
    reveal_strlit("/simpleshortener/api/list");
    reveal_strlit("/simpleshortener/api/qr");
    reveal_strlit("/simpleshortener");
    reveal_strlit("/simpleshortener/");
    reveal_strlit("/simpleshortener/static/link.png");
    reveal_strlit("/favicon.ico");
    reveal_strlit("/simpleshortener/api/edit/");
    reveal_strlit("/simpleshortener/api/delete/");
    let edit_prefix = "/simpleshortener/api/edit/"@;
    let delete_prefix = "/simpleshortener/api/delete/"@;
    let e = edit_prefix + s;
    let d = delete_prefix + s;
    law_segment_parameter(edit_prefix, s);
    law_segment_parameter(delete_prefix, s);
    assert(e[17] == 'a' && d[17] == 'a');
    assert(e[21] == 'e' && d[21] == 'd');
    assert(e != "/simpleshortener/static/link.png"@ && d != "/simpleshortener/static/link.png"@)
        by {
        assert("/simpleshortener/static/link.png"@[17] == 's');
    }
    assert(segment_param(d, edit_prefix) is None) by {
        assert(d.take(edit_prefix.len() as int)[21] != edit_prefix[21]);
    }
}

/// Each fixed route of the service is reached by the method it is registered
/// under (`GET` routes by `HEAD` too), and a known path answers other methods
/// with `405`.
pub proof fn law_fixed_routes(method: Method)
    ensures
        app_route(method, "/"@) == (if method == Method::Get || method == Method::Head {
            Route::<Seq<char>>::Root
        } else {
            Route::MethodNotAllowed
        }),
        app_route(method, "/simpleshortener/"@) == (if method == Method::Get || method
            == Method::Head {
            Route::<Seq<char>>::Panel
        } else {
            Route::MethodNotAllowed
        }),
        app_route(method, "/simpleshortener/api/add"@) == (if method == Method::Put {
            Route::<Seq<char>>::Add
        } else {
            Route::MethodNotAllowed
        }),
        app_route(method, "/simpleshortener/api/list"@) == (if method == Method::Get || method
            == Method::Head {
            Route::<Seq<char>>::List
        } else {
            Route::MethodNotAllowed
        }),
        app_route(method, "/simpleshortener/api/qr"@) == (if method == Method::Post {
            Route::<Seq<char>>::Qr
        } else {
            Route::MethodNotAllowed
        }),
        app_route(method, "/simpleshortener/api/token"@) == (if method == Method::Post {
            Route::<Seq<char>>::Login
        } else {
            Route::MethodNotAllowed
        }),
        app_route(method, "/simpleshortener/api/create"@) == (if method == Method::Post {
            Route::<Seq<char>>::Setup
        } else {
            Route::MethodNotAllowed
        }),
        app_route(method, "/simpleshortener/static/panel.js"@) == (if method == Method::Get
            || method == Method::Head {
            Route::<Seq<char>>::PanelScript
        } else {
            Route::MethodNotAllowed
        }),
{
    reveal_strlit("/");
    reveal_strlit("/simpleshortener/");
    reveal_strlit("/simpleshortener/api/add");
    reveal_strlit("/simpleshortener/api/list");
    reveal_strlit("/simpleshortener/api/qr");
    reveal_strlit("/simpleshortener/api/token");
    reveal_strlit("/simpleshortener/api/create");
    reveal_strlit("/simpleshortener/static/panel.js");
    assert("/simpleshortener/api/list"@ != "/simpleshortener/api/add"@) by {
        assert("/simpleshortener/api/list"@[21] != "/simpleshortener/api/add"@[21]);
    }
    assert("/simpleshortener/api/token"@ != "/simpleshortener/api/create"@) by {
        assert("/simpleshortener/api/token"@[21] != "/simpleshortener/api/create"@[21]);
    }
}

/// Each fixed route of the file-backed service is reached by the method it is
/// registered under (`GET` routes by `HEAD` too), and a known path answers
/// other methods with `405`.
pub proof fn law_file_backed_fixed_routes(method: Method)
    ensures
        segment_route(method, "/"@) == (if method == Method::Get || method == Method::Head {
            Route::<Seq<char>>::Root
        } else {
            Route::MethodNotAllowed
        }),
        segment_route(method, "/simpleshortener/api"@) == (if method == Method::Get || method == Method::Head {
            Route::<Seq<char>>::Doc
        } else {
            Route::MethodNotAllowed
        }),
        segment_route(method, "/simpleshortener/api/"@) == (if method == Method::Get || method == Method::Head {
            Route::<Seq<char>>::Doc
        } else {
            Route::MethodNotAllowed
        }),
        segment_route(method, "/simpleshortener/api/add"@) == (if method == Method::Put {
            Route::<Seq<char>>::Add
        } else {
            Route::MethodNotAllowed
        }),
        segment_route(method, "/simpleshortener/api/list"@) == (if method == Method::Get || method == Method::Head {
            Route::<Seq<char>>::List
        } else {
            Route::MethodNotAllowed
        }),
        segment_route(method, "/simpleshortener/api/qr"@) == (if method == Method::Post {
            Route::<Seq<char>>::Qr
        } else {
            Route::MethodNotAllowed
        }),
        segment_route(method, "/simpleshortener"@) == (if method == Method::Get || method == Method::Head {
            Route::<Seq<char>>::Panel
        } else {
            Route::MethodNotAllowed
        }),
        segment_route(method, "/simpleshortener/"@) == (if method == Method::Get || method == Method::Head {
            Route::<Seq<char>>::Panel
        } else {
            Route::MethodNotAllowed
        }),
        segment_route(method, "/simpleshortener/static/link.png"@) == (if method == Method::Get || method == Method::Head {
            Route::<Seq<char>>::Logo
        } else {
            Route::MethodNotAllowed
        }),
        segment_route(method, "/favicon.ico"@) == (if method == Method::Get || method == Method::Head {
            Route::<Seq<char>>::Favicon
        } else {
            Route::MethodNotAllowed
        }),
{
    reveal_strlit("/");
    reveal_strlit("/simpleshortener/api");
    reveal_strlit("/simpleshortener/api/");
    reveal_strlit("/simpleshortener/api/add");
    reveal_strlit("/simpleshortener/api/list");
    reveal_strlit("/simpleshortener/api/qr");
    reveal_strlit("/simpleshortener");
    reveal_strlit("/simpleshortener/");
    reveal_strlit("/simpleshortener/static/link.png");
    reveal_strlit("/favicon.ico");
    assert("/simpleshortener/api/list"@ != "/simpleshortener/api/add"@) by {
        assert("/simpleshortener/api/list"@[21] != "/simpleshortener/api/add"@[21]);
    }
    assert("/"@.len() == 1);
    assert("/simpleshortener/api"@.len() == 20);
    assert("/simpleshortener/api/"@.len() == 21);
    assert("/simpleshortener/api/add"@.len() == 24);
    assert("/simpleshortener/api/list"@.len() == 25);
    assert("/simpleshortener/api/qr"@.len() == 23);
    assert("/simpleshortener"@.len() == 16);
    assert("/simpleshortener/"@.len() == 17);
    assert("/simpleshortener/static/link.png"@.len() == 32);
    assert("/favicon.ico"@.len() == 12);
}

/// A stored password text splits at its `|` signs: the first piece is the
/// text before the first `|`, the second the text between the first and the
/// next `|` (or the end); a text without `|` has no second piece.
pub proof fn law_stored_text_pieces(a: Seq<char>, b: Seq<char>, rest: Seq<char>)
    requires
        forall|i: int| 0 <= i < a.len() ==> a[i] != '|',
        forall|i: int| 0 <= i < b.len() ==> b[i] != '|',
        rest.len() == 0 || rest[0] == '|',
    ensures
        first_piece(a + seq!['|'] + b + rest) == a,
        second_piece(a + seq!['|'] + b + rest) == Some(b),
        first_piece(a) == a,
        second_piece(a) is None,
{
    let t = a + seq!['|'] + b + rest;
    assert forall|j: int| 0 <= j < a.len() implies t[j] != '|' by {
        assert(t[j] == a[j]);
    }
    assert(t[a.len() as int] == '|');
    lemma_bar_index(t, a.len() as int);
    assert(first_piece(t) =~= a);
    let after = t.skip(a.len() as int + 1);
    assert(after =~= b + rest);
    assert forall|j: int| 0 <= j < b.len() implies after[j] != '|' by {
        assert(after[j] == b[j]);
    }
    if rest.len() > 0 {
        assert(after[b.len() as int] == '|');
    }
    lemma_bar_index(after, b.len() as int);
    assert(first_piece(after) =~= b);
    lemma_bar_index(a, a.len() as int);
    assert(first_piece(a) =~= a);
}

/// Under an account's stored password, a password is accepted exactly when
/// its salted hash is the stored one: the created password is accepted, and
/// another only where the two hashes coincide.
pub proof fn law_login_compares_hashes(salt: Seq<char>, password: Seq<char>, attempt: Seq<char>)
    requires
        is_token(salt),
    ensures
        password_accepted(stored_password(salt, password), attempt) <==> password_hash_of(salt, attempt)
            == password_hash_of(salt, password),
{
    let h = password_hash_of(salt, password);
    lemma_hex_lower_digits(
        crate::users::sha512(vstd::utf8::encode_utf8(crate::users::salted(salt, password))),
    );
    assert forall|j: int| 0 <= j < salt.len() implies salt[j] != '|' by {
        assert(is_token_char(salt[j]));
    }
    law_stored_text_pieces(salt, h, Seq::empty());
    assert(salt + seq!['|'] + h + Seq::<char>::empty() =~= stored_password(salt, password));
}

/// Percent-decoding leaves bytes without `%` as they are, and never makes
/// bytes longer.
pub proof fn law_percent_decode(b: Seq<u8>)
    ensures
        percent_decode(b).len() <= b.len(),
        (forall|i: int| 0 <= i < b.len() ==> b[i] != 37) ==> percent_decode(b) == b,
    decreases b.len(),
{
    if b.len() > 0 {
        law_percent_decode(b.drop_first());
        if b[0] == 37 && b.len() >= 3 && hex_value(b[1]) is Some && hex_value(b[2]) is Some {
            law_percent_decode(b.subrange(3, b.len() as int));
        }
        if forall|i: int| 0 <= i < b.len() ==> b[i] != 37 {
            assert forall|i: int| 0 <= i < b.drop_first().len() implies b.drop_first()[i] != 37 by {
                assert(b.drop_first()[i] == b[i + 1]);
            }
            assert(percent_decode(b) =~= seq![b[0]] + b.drop_first());
            assert(seq![b[0]] + b.drop_first() =~= b);
        }
    }
}

/// Every `GET` (or `HEAD`) request outside the root and outside
/// `/simpleshortener/` is a short-link lookup; other methods there get `405`.
pub proof fn law_short_link_fallback(method: Method, path: Seq<char>)
    requires
        path != "/"@,
        !(path.len() >= 17 && path.take(17) == "/simpleshortener/"@),
    ensures
        app_route(method, path) == (if method == Method::Get || method == Method::Head {
            Route::<Seq<char>>::Redirect
        } else {
            Route::MethodNotAllowed
        }),
{
    reveal_strlit("/simpleshortener/");
    reveal_strlit("/simpleshortener/api/add");
    reveal_strlit("/simpleshortener/api/list");
    reveal_strlit("/simpleshortener/api/qr");
    reveal_strlit("/simpleshortener/api/token");
    reveal_strlit("/simpleshortener/api/create");
    reveal_strlit("/simpleshortener/static/panel.js");
    reveal_strlit("/simpleshortener/api/edit/");
    reveal_strlit("/simpleshortener/api/delete/");
    reveal_strlit("/simpleshortener/api/token/invalidate/");
    let root = "/simpleshortener/"@;
    assert("/simpleshortener/"@.take(17) =~= root);
    assert("/simpleshortener/api/add"@.take(17) =~= root);
    assert("/simpleshortener/api/list"@.take(17) =~= root);
    assert("/simpleshortener/api/qr"@.take(17) =~= root);
    assert("/simpleshortener/api/token"@.take(17) =~= root);
    assert("/simpleshortener/api/create"@.take(17) =~= root);
    assert("/simpleshortener/static/panel.js"@.take(17) =~= root);
    assert("/simpleshortener/api/edit/"@.take(17) =~= root);
    assert("/simpleshortener/api/delete/"@.take(17) =~= root);
    assert("/simpleshortener/api/token/invalidate/"@.take(17) =~= root);
    if segment_param(path, "/simpleshortener/api/edit/"@) is Some {
        assert(path.take(17) =~= path.take(26).take(17));
    }
    if segment_param(path, "/simpleshortener/api/delete/"@) is Some {
        assert(path.take(17) =~= path.take(28).take(17));
    }
    if segment_param(path, "/simpleshortener/api/token/invalidate/"@) is Some {
        assert(path.take(17) =~= path.take(38).take(17));
    }
}

/// The 53 token characters are drawn one for one: each draw below 53 gives a
/// distinct character of the alphabet, and every character of the alphabet
/// is some draw.
pub proof fn law_token_alphabet(i: int, j: int, c: char)
    ensures
        0 <= i < 53 ==> is_token_char(alphabet_char(i)),
        0 <= i < 53 && 0 <= j < 53 && i != j ==> alphabet_char(i) != alphabet_char(j),
        is_token_char(c) ==> exists|k: int| 0 <= k < 53 && alphabet_char(k) == c,
{
    if is_token_char(c) {
        if 'A' <= c && c <= 'Z' {
            let k = c as int - 65;
            assert(alphabet_char(k) == c);
        } else if 'a' <= c && c <= 'z' {
            let k = c as int - 97 + 26;
            assert(alphabet_char(k) == c);
        } else {
            assert(alphabet_char(52) == c);
        }
    }
}

/// The hexadecimal form of a digest: two characters per byte, the high
/// nibble first, each a distinct digit `0`-`9` or `a`-`f`.
pub proof fn law_hex_form(b: Seq<u8>, i: int, n: int, m: int)
    ensures
        hex_lower(b).len() == 2 * b.len(),
        0 <= i < b.len() ==> hex_lower(b)[2 * i] == hex_digit_char(b[i] as int / 16)
            && hex_lower(b)[2 * i + 1] == hex_digit_char(b[i] as int % 16),
        0 <= n < 16 ==> ('0' <= hex_digit_char(n) && hex_digit_char(n) <= '9') || ('a'
            <= hex_digit_char(n) && hex_digit_char(n) <= 'f'),
        0 <= n < 16 && 0 <= m < 16 && n != m ==> hex_digit_char(n) != hex_digit_char(m),
    decreases b.len(),
{
    lemma_hex_lower_digits(b);
    if b.len() > 0 && 0 <= i < b.len() {
        let prev = b.drop_last();
        law_hex_form(prev, i, n, m);
        if i < prev.len() {
            assert(prev[i] == b[i]);
            assert(hex_lower(b)[2 * i] == hex_lower(prev)[2 * i]);
            assert(hex_lower(b)[2 * i + 1] == hex_lower(prev)[2 * i + 1]);
        }
    }
}

/// The table built from rows holds exactly the links the rows name, each
/// with the destination of the last row that names it.
pub proof fn law_rows_build_table(rows: Seq<(Seq<char>, Seq<char>)>, k: Seq<char>, i: int)
    ensures
        links_of_rows(rows).contains_key(k) <==> exists|j: int| 0 <= j < rows.len() && rows[j].0 == k,
        0 <= i < rows.len() && rows[i].0 == k && (forall|j: int| i < j < rows.len() ==> rows[j].0 != k)
            ==> links_of_rows(rows)[k] == rows[i].1,
    decreases rows.len(),
{
    if rows.len() > 0 {
        let prev = rows.drop_last();
        law_rows_build_table(prev, k, i);
        if links_of_rows(rows).contains_key(k) && k != rows.last().0 {
            let j = choose|j: int| 0 <= j < prev.len() && prev[j].0 == k;
            assert(rows[j] == prev[j]);
        }
        if exists|j: int| 0 <= j < rows.len() && rows[j].0 == k {
            let j = choose|j: int| 0 <= j < rows.len() && rows[j].0 == k;
            if j < prev.len() {
                assert(prev[j] == rows[j]);
            }
        }
        if 0 <= i < rows.len() && rows[i].0 == k && (forall|j: int| i < j < rows.len() ==> rows[j].0 != k) {
            if i < prev.len() {
                assert(rows[rows.len() - 1].0 != k);
                assert(prev[i] == rows[i]);
                assert forall|j: int| i < j < prev.len() implies prev[j].0 != k by {
                    assert(prev[j] == rows[j]);
                }
            }
        }
    }
}

/// Printable ASCII text can stand as a header value; a line break or DEL
/// cannot.
pub proof fn law_header_values(s: Seq<char>, i: int)
    ensures
        (forall|j: int| 0 <= j < s.len() ==> ' ' <= #[trigger] s[j] && s[j] <= '~') ==> is_header_value(s),
        0 <= i < s.len() && (s[i] == '\n' || s[i] == '\r' || s[i] == '\x7f') ==> !is_header_value(s),
{
    if 0 <= i < s.len() && (s[i] == '\n' || s[i] == '\r' || s[i] == '\x7f') {
        assert(!(s[i] == '\t' || (s[i] as u32 >= 32 && s[i] as u32 != 127)));
    }
}

} // verus!
