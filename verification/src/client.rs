use crate::errors::FunctionsError;
use crate::headers::{
    entry_views, lemma_lookup_upsert_other, lemma_lookup_upsert_same, lemma_upsert_overwrites,
    lemma_upsert_len, lemma_upsert_unique, lookup, unique_keys, upsert, upsert_header,
};
use crate::models::{
    FunctionInvokeOptions, FunctionRegion, HttpMethod, InvokeBody, WireBody, WireRequest,
};
use crate::trusted::{check_header_value, header_name_normal, normalize_header_name,
    valid_header_value};
use vstd::prelude::*;
use vstd::string::StringExecFns;

verus! {

/// The method an invocation uses: the one the options carry, or POST.
pub open spec fn opts_method(options: Option<FunctionInvokeOptions>) -> HttpMethod {
    match options {
        Some(o) => match o.method {
            Some(m) => m,
            None => HttpMethod::Post,
        },
        None => HttpMethod::Post,
    }
}

/// The region override the options carry, if any.
pub open spec fn opts_region(options: Option<FunctionInvokeOptions>) -> Option<FunctionRegion> {
    match options {
        Some(o) => o.region,
        None => None,
    }
}

/// The body the options carry, if any.
pub open spec fn opts_body(options: Option<FunctionInvokeOptions>) -> Option<InvokeBody> {
    match options {
        Some(o) => o.body,
        None => None,
    }
}

/// Merges header entries front to back into `acc`, normalizing each name the
/// way the transport does and overwriting entries that normalize to the same
/// name.
pub open spec fn merge_into(
    acc: Seq<(Seq<char>, Seq<char>)>,
    hs: Seq<(Seq<char>, Seq<char>)>,
) -> Seq<(Seq<char>, Seq<char>)>
    decreases hs.len(),
{
    if hs.len() == 0 {
        acc
    } else {
        let n = match header_name_normal(hs[0].0) {
            Some(n) => n,
            None => hs[0].0,
        };
        merge_into(upsert(acc, n, hs[0].1), hs.drop_first())
    }
}

/// The outgoing header set that the persistent headers alone produce.
pub open spec fn merged_headers(hs: Seq<(Seq<char>, Seq<char>)>) -> Seq<(Seq<char>, Seq<char>)> {
    merge_into(Seq::empty(), hs)
}

/// The message of the first persistent header entry the transport refuses,
/// names checked before values, or nothing when all entries are acceptable.
pub open spec fn header_merge_error(hs: Seq<(Seq<char>, Seq<char>)>) -> Option<Seq<char>>
    decreases hs.len(),
{
    if hs.len() == 0 {
        None
    } else if header_name_normal(hs[0].0) is None {
        Some("Invalid header name"@)
    } else if !valid_header_value(hs[0].1) {
        Some("Invalid header value"@)
    } else {
        header_merge_error(hs.drop_first())
    }
}

/// The message of the error that building a request reports, or nothing when
/// building succeeds: a refused persistent header first, then a refused
/// region value.
pub open spec fn build_error(
    base: Seq<(Seq<char>, Seq<char>)>,
    region: Option<FunctionRegion>,
) -> Option<Seq<char>> {
    match header_merge_error(base) {
        Some(m) => Some(m),
        None => match region {
            Some(r) => if r != FunctionRegion::Any && !valid_header_value(r.spec_code()) {
                Some("Invalid region value"@)
            } else {
                None
            },
            None => None,
        },
    }
}

/// The headers after the region override: every region but the wildcard sets
/// `x-region` to its canonical encoding; the wildcard never emits it.
pub open spec fn region_headers(
    base: Seq<(Seq<char>, Seq<char>)>,
    region: Option<FunctionRegion>,
) -> Seq<(Seq<char>, Seq<char>)> {
    match region {
        Some(r) => if r != FunctionRegion::Any {
            upsert(merged_headers(base), "x-region"@, r.spec_code())
        } else {
            merged_headers(base)
        },
        None => merged_headers(base),
    }
}

/// The `Content-Type` a body variant dictates; form data and an absent body
/// leave the header to the transport.
pub open spec fn body_content_type(body: Option<InvokeBody>) -> Option<Seq<char>> {
    match body {
        Some(InvokeBody::File(_)) => Some("application/octet-stream"@),
        Some(InvokeBody::Blob(_)) => Some("application/octet-stream"@),
        Some(InvokeBody::ArrayBuffer(_)) => Some("application/octet-stream"@),
        Some(InvokeBody::String(_)) => Some("text/plain"@),
        Some(InvokeBody::Json(_)) => Some("application/json"@),
        Some(InvokeBody::FormData(_)) => None,
        None => None,
    }
}

/// The complete outgoing header set of an invocation.
pub open spec fn planned_headers(
    base: Seq<(Seq<char>, Seq<char>)>,
    region: Option<FunctionRegion>,
    body: Option<InvokeBody>,
) -> Seq<(Seq<char>, Seq<char>)> {
    match body_content_type(body) {
        Some(ct) => upsert(region_headers(base, region), "content-type"@, ct),
        None => region_headers(base, region),
    }
}

/// How the wire body encodes each body variant: binary variants carry their
/// bytes unmodified, a string its text, form data and JSON their entries.
pub open spec fn wire_body_for(body: Option<InvokeBody>, w: WireBody) -> bool {
    match body {
        Some(InvokeBody::File(bytes)) => w == WireBody::Bytes(bytes),
        Some(InvokeBody::Blob(bytes)) => w == WireBody::Bytes(bytes),
        Some(InvokeBody::ArrayBuffer(bytes)) => w == WireBody::Bytes(bytes),
        Some(InvokeBody::String(s)) => w == WireBody::Text(s),
        Some(InvokeBody::FormData(fields)) => w == WireBody::Form(fields),
        Some(InvokeBody::Json(entries)) => w == WireBody::Json(entries),
        None => w == WireBody::Empty,
    }
}

/// What a successfully built request holds, given the client and the options.
pub open spec fn build_ok(
    c: FunctionsClient,
    name: Seq<char>,
    options: Option<FunctionInvokeOptions>,
    plan: WireRequest,
) -> bool {
    &&& plan.url@ == c.url@ + "/"@ + name
    &&& plan.method == opts_method(options)
    &&& entry_views(plan.headers@) == planned_headers(
        entry_views(c.headers@),
        opts_region(options),
        opts_body(options),
    )
    &&& wire_body_for(opts_body(options), plan.body)
}

/// The `Authorization` value that a token sets.
pub open spec fn bearer_of(token: Seq<char>) -> Seq<char> {
    "Bearer "@ + token
}

/// Client state: the base URL, the persistent headers and the default region.
/// The transport collaborator that dispatches built requests lives outside
/// this crate; it receives the `WireRequest` values built here.
#[derive(Debug, Clone)]
pub struct FunctionsClient {
    pub url: String,
    pub headers: Vec<(String, String)>,
    pub region: FunctionRegion,
}

impl FunctionsClient {
    /// Well-formed client state: no duplicate persistent header names.
    pub open spec fn wf(&self) -> bool {
        unique_keys(entry_views(self.headers@))
    }

    /// A client that invokes functions under `url`, with the given persistent
    /// headers (none if omitted) and default region (the wildcard if omitted).
    pub fn new(
        url: String,
        headers: Option<Vec<(String, String)>>,
        region: Option<FunctionRegion>,
    ) -> (c: Self)
        requires
            headers matches Some(h) ==> unique_keys(entry_views(h@)),
        ensures
            c.url == url,
            c.headers@ == (match headers {
                Some(h) => h@,
                None => Seq::<(String, String)>::empty(),
            }),
            c.region == (match region {
                Some(r) => r,
                None => FunctionRegion::Any,
            }),
            c.wf(),
    {
        let c = FunctionsClient {
            url,
            headers: match headers {
                Some(h) => h,
                None => Vec::new(),
            },
            region: match region {
                Some(r) => r,
                None => FunctionRegion::Any,
            },
        };
        proof {
            assert(entry_views(Seq::<(String, String)>::empty()) =~= Seq::<(
                Seq<char>,
                Seq<char>,
            )>::empty());
        }
        c
    }

    /// Sets the `Authorization` header to `Bearer <token>` on the persistent
    /// headers, overwriting any earlier value: last write wins, the entry is
    /// never duplicated.
    pub fn set_auth(&mut self, token: String)
        ensures
            entry_views(final(self).headers@) == upsert(
                entry_views(old(self).headers@),
                "Authorization"@,
                bearer_of(token@),
            ),
            final(self).url == old(self).url,
            final(self).region == old(self).region,
            old(self).wf() ==> final(self).wf(),
    {
        let value = String::from_str("Bearer ").concat(token.as_str());
        upsert_header(&mut self.headers, String::from_str("Authorization"), value);
        proof {
            if old(self).wf() {
                lemma_upsert_unique(
                    entry_views(old(self).headers@),
                    "Authorization"@,
                    bearer_of(token@),
                );
            }
        }
    }

    /// Builds the transport-layer request for one invocation of the named
    /// function: merges the persistent headers the way the transport
    /// normalizes them, applies the region override, picks the method (POST
    /// by default), assigns the content type the body variant dictates and
    /// encodes the body. Reports the first header entry or region value the
    /// transport refuses.
    pub fn build_request(
        &self,
        function_name: &str,
        options: Option<FunctionInvokeOptions>,
    ) -> (r: Result<WireRequest, FunctionsError>)
        ensures
            match r {
                Ok(plan) => build_error(entry_views(self.headers@), opts_region(options)) is None
                    && build_ok(*self, function_name@, options, plan),
                Err(e) => build_error(entry_views(self.headers@), opts_region(options)) matches Some(
                    m,
                ) && e matches FunctionsError::FetchError(em) && em@ == m,
            },
    {
        let (method_o, region_o, body_o): (
            Option<HttpMethod>,
            Option<FunctionRegion>,
            Option<InvokeBody>,
        ) = match options {
            Some(o) => (o.method, o.region, o.body),
            None => (None, None, None),
        };
        let mut out: Vec<(String, String)> = Vec::new();
        proof {
            assert(entry_views(out@) =~= Seq::<(Seq<char>, Seq<char>)>::empty());
            assert(entry_views(self.headers@).skip(0) =~= entry_views(self.headers@));
        }
        let mut i: usize = 0;
        while i < self.headers.len()
            invariant
                0 <= i <= self.headers@.len(),
                header_merge_error(entry_views(self.headers@)) == header_merge_error(
                    entry_views(self.headers@).skip(i as int),
                ),
                merge_into(entry_views(out@), entry_views(self.headers@).skip(i as int))
                    == merged_headers(entry_views(self.headers@)),
            decreases self.headers@.len() - i,
        {
            let ghost hs = entry_views(self.headers@);
            let ghost rest = hs.skip(i as int);
            proof {
                assert(rest[0] == hs[i as int]);
                assert(hs[i as int] == (self.headers@[i as int].0@, self.headers@[i as int].1@));
            }
            let entry = &self.headers[i];
            match normalize_header_name(entry.0.as_str()) {
                Some(n) => {
                    if check_header_value(entry.1.as_str()) {
                        let ghost acc = entry_views(out@);
                        upsert_header(&mut out, n, entry.1.clone());
                        proof {
                            assert(rest.drop_first() =~= hs.skip(i as int + 1));
                            assert(entry_views(out@) == upsert(acc, n@, rest[0].1));
                            assert(merge_into(entry_views(out@), hs.skip(i as int + 1))
                                == merged_headers(hs));
                            assert(header_merge_error(rest) == header_merge_error(
                                hs.skip(i as int + 1),
                            ));
                        }
                        i += 1;
                    } else {
                        proof {
                            assert(header_merge_error(rest) == Some("Invalid header value"@));
                        }
                        return Err(
                            FunctionsError::FetchError(String::from_str("Invalid header value")),
                        );
                    }
                },
                None => {
                    proof {
                        assert(header_merge_error(rest) == Some("Invalid header name"@));
                    }
                    return Err(
                        FunctionsError::FetchError(String::from_str("Invalid header name")),
                    );
                },
            }
        }
        proof {
            assert(entry_views(self.headers@).skip(self.headers@.len() as int) =~= Seq::<(
                Seq<char>,
                Seq<char>,
            )>::empty());
            assert(entry_views(out@) == merged_headers(entry_views(self.headers@)));
            assert(header_merge_error(entry_views(self.headers@)) is None);
        }
        match region_o {
            Some(region) => {
                match region {
                    FunctionRegion::Any => {},
                    _ => {
                        proof {
                            assert(region != FunctionRegion::Any);
                        }
                        let code = region.as_str();
                        if check_header_value(code) {
                            upsert_header(
                                &mut out,
                                String::from_str("x-region"),
                                String::from_str(code),
                            );
                        } else {
                            return Err(
                                FunctionsError::FetchError(
                                    String::from_str("Invalid region value"),
                                ),
                            );
                        }
                    },
                }
            },
            None => {},
        }
        proof {
            assert(entry_views(out@) == region_headers(
                entry_views(self.headers@),
                opts_region(options),
            ));
        }
        let method = match method_o {
            Some(m) => m,
            None => HttpMethod::Post,
        };
        let url = self.url.clone().concat("/").concat(function_name);
        let (ct, wire_body): (Option<&str>, WireBody) = match body_o {
            Some(InvokeBody::File(b)) => (Some("application/octet-stream"), WireBody::Bytes(b)),
            Some(InvokeBody::Blob(b)) => (Some("application/octet-stream"), WireBody::Bytes(b)),
            Some(InvokeBody::ArrayBuffer(b)) => (
                Some("application/octet-stream"),
                WireBody::Bytes(b),
            ),
            Some(InvokeBody::String(s)) => (Some("text/plain"), WireBody::Text(s)),
            Some(InvokeBody::Json(j)) => (Some("application/json"), WireBody::Json(j)),
            Some(InvokeBody::FormData(f)) => (None, WireBody::Form(f)),
            None => (None, WireBody::Empty),
        };
        match ct {
            Some(c) => {
                upsert_header(&mut out, String::from_str("content-type"), String::from_str(c));
            },
            None => {},
        }
        proof {
            assert(entry_views(out@) == planned_headers(
                entry_views(self.headers@),
                opts_region(options),
                opts_body(options),
            ));
        }
        Ok(WireRequest { method, url, headers: out, body: wire_body })
    }
}

/// Setting the authorization token twice is the same as setting it once with
/// the last token: the second write overwrites the entry rather than adding a
/// second one, and the header carries the last token's bearer value.
pub proof fn lemma_set_auth_overwrites(
    hs: Seq<(Seq<char>, Seq<char>)>,
    token1: Seq<char>,
    token2: Seq<char>,
)
    ensures
        upsert(upsert(hs, "Authorization"@, bearer_of(token1)), "Authorization"@, bearer_of(token2))
            =~= upsert(hs, "Authorization"@, bearer_of(token2)),
        lookup(
            upsert(
                upsert(hs, "Authorization"@, bearer_of(token1)),
                "Authorization"@,
                bearer_of(token2),
            ),
            "Authorization"@,
        ) == Some(bearer_of(token2)),
        upsert(upsert(hs, "Authorization"@, bearer_of(token1)), "Authorization"@, bearer_of(token2)).len()
            == upsert(hs, "Authorization"@, bearer_of(token1)).len(),
{
    lemma_upsert_overwrites(hs, "Authorization"@, bearer_of(token1), bearer_of(token2));
    lemma_lookup_upsert_same(hs, "Authorization"@, bearer_of(token1));
    lemma_upsert_len(
        upsert(hs, "Authorization"@, bearer_of(token1)),
        "Authorization"@,
        bearer_of(token2),
    );
    lemma_lookup_upsert_same(
        upsert(hs, "Authorization"@, bearer_of(token1)),
        "Authorization"@,
        bearer_of(token2),
    );
}

/// Every region but the wildcard makes the built request carry `x-region`
/// with the region's canonical encoding, whatever the client headers and the
/// body variant are.
pub proof fn lemma_region_header_set(
    base: Seq<(Seq<char>, Seq<char>)>,
    region: FunctionRegion,
    body: Option<InvokeBody>,
)
    requires
        region != FunctionRegion::Any,
    ensures
        lookup(planned_headers(base, Some(region), body), "x-region"@) == Some(region.spec_code()),
{
    reveal_strlit("x-region");
    reveal_strlit("content-type");
    assert("x-region"@.len() == 8);
    assert("content-type"@.len() == 12);
    lemma_lookup_upsert_same(merged_headers(base), "x-region"@, region.spec_code());
    match body_content_type(body) {
        Some(ct) => {
            lemma_lookup_upsert_other(
                region_headers(base, Some(region)),
                "content-type"@,
                ct,
                "x-region"@,
            );
        },
        None => {},
    }
}

/// The wildcard region, or no region override at all, never emits the
/// `x-region` header: the built request carries it exactly as the merged
/// persistent headers do.
pub proof fn lemma_region_header_wildcard(
    base: Seq<(Seq<char>, Seq<char>)>,
    region: Option<FunctionRegion>,
    body: Option<InvokeBody>,
)
    requires
        region is None || region == Some(FunctionRegion::Any),
    ensures
        lookup(planned_headers(base, region, body), "x-region"@) == lookup(
            merged_headers(base),
            "x-region"@,
        ),
{
    reveal_strlit("x-region");
    reveal_strlit("content-type");
    assert("x-region"@.len() == 8);
    assert("content-type"@.len() == 12);
    match body_content_type(body) {
        Some(ct) => {
            lemma_lookup_upsert_other(region_headers(base, region), "content-type"@, ct, "x-region"@);
        },
        None => {},
    }
}

/// Merging header entries into a list with unique names keeps the names
/// unique: every step overwrites rather than appends a duplicate.
pub proof fn lemma_merge_into_unique(
    acc: Seq<(Seq<char>, Seq<char>)>,
    hs: Seq<(Seq<char>, Seq<char>)>,
)
    requires
        unique_keys(acc),
    ensures
        unique_keys(merge_into(acc, hs)),
    decreases hs.len(),
{
    if hs.len() > 0 {
        let n = match header_name_normal(hs[0].0) {
            Some(n) => n,
            None => hs[0].0,
        };
        lemma_upsert_unique(acc, n, hs[0].1);
        lemma_merge_into_unique(upsert(acc, n, hs[0].1), hs.drop_first());
    }
}

/// The outgoing header set of a built request never carries two entries
/// with one name, whatever the client headers, the region and the body
/// variant are: the merge normalizes and overwrites, and the region and
/// content-type steps overwrite as well.
pub proof fn lemma_planned_headers_unique(
    base: Seq<(Seq<char>, Seq<char>)>,
    region: Option<FunctionRegion>,
    body: Option<InvokeBody>,
)
    ensures
        unique_keys(planned_headers(base, region, body)),
{
    lemma_merge_into_unique(Seq::empty(), base);
    match region {
        Some(r) => {
            if r != FunctionRegion::Any {
                lemma_upsert_unique(merged_headers(base), "x-region"@, r.spec_code());
            }
        },
        None => {},
    }
    match body_content_type(body) {
        Some(ct) => {
            lemma_upsert_unique(region_headers(base, region), "content-type"@, ct);
        },
        None => {},
    }
}

/// Each body variant dictates the built request's `Content-Type`: the binary
/// variants set `application/octet-stream`, a string body `text/plain`, a
/// JSON body `application/json`, while form data and an absent body leave the
/// header exactly as the region step left it (the transport then sets the
/// multipart boundary header itself for form data).
pub proof fn lemma_body_content_type(
    base: Seq<(Seq<char>, Seq<char>)>,
    region: Option<FunctionRegion>,
    body: Option<InvokeBody>,
)
    ensures
        match body_content_type(body) {
            Some(ct) => lookup(planned_headers(base, region, body), "content-type"@) == Some(ct),
            None => lookup(planned_headers(base, region, body), "content-type"@) == lookup(
                region_headers(base, region),
                "content-type"@,
            ),
        },
{
    match body_content_type(body) {
        Some(ct) => {
            lemma_lookup_upsert_same(region_headers(base, region), "content-type"@, ct);
        },
        None => {},
    }
}

} // verus!
