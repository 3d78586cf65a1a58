use vstd::prelude::*;
use vstd::string::*;
use crate::balloon::Balloon;
use crate::text::{decimal, to_decimal};

verus! {

/// How the client proves who it is to the judging server.
pub enum AuthStyle {
    /// Every request carries a Basic authorization header; the server marks a
    /// balloon done through its REST interface.
    Token,
    /// A login form exchanges the credentials for a session cookie; a balloon
    /// is marked done by visiting the jury page for it.
    Session,
}

/// A balloon as the server lists it, with the server's delivered mark.
pub struct RawBalloon {
    pub balloon: Balloon,
    /// Already delivered. Servers that list only pending balloons leave it false.
    pub done: bool,
}

/// The text that base64 (standard alphabet, padded) gives for the UTF-8
/// bytes of a text.
pub uninterp spec fn base64_text(text: Seq<char>) -> Seq<char>;

/// Relies on base64's `STANDARD` engine `encode`, applied to the UTF-8 bytes of
/// the text.
#[verifier::external_body]
fn encode_base64(text: &str) -> (r: String)
    ensures
        r@ == base64_text(text@),
{
    base64::Engine::encode(&base64::engine::general_purpose::STANDARD, text.as_bytes())
}

/// The value of the Basic authorization header for these credentials.
pub open spec fn basic_auth_of(user: Seq<char>, passwd: Seq<char>) -> Seq<char> {
    "Basic "@ + base64_text(user + ":"@ + passwd)
}

/// The path, relative to the server's base address, that lists balloons.
pub open spec fn balloons_path_of(style: AuthStyle, cid: Seq<char>) -> Seq<char> {
    match style {
        AuthStyle::Token => "api/v4/contests/"@ + cid + "/balloons?todo=true"@,
        AuthStyle::Session => "api/v4/contests/"@ + cid + "/balloons"@,
    }
}

/// The path, relative to the server's base address, that marks balloon `id`
/// delivered.
pub open spec fn done_path_of(style: AuthStyle, cid: Seq<char>, id: nat) -> Seq<char> {
    match style {
        AuthStyle::Token => "api/v4/contests/"@ + cid + "/balloons/"@ + decimal(id) + "/done"@,
        AuthStyle::Session => "jury/balloons/"@ + decimal(id) + "/done"@,
    }
}

/// The balloons of a listing that are not yet delivered, in listing order.
pub open spec fn undelivered(raw: Seq<RawBalloon>) -> Seq<Balloon>
    decreases raw.len(),
{
    if raw.len() == 0 {
        Seq::empty()
    } else if raw[0].done {
        undelivered(raw.drop_first())
    } else {
        seq![raw[0].balloon] + undelivered(raw.drop_first())
    }
}

/// Nothing marked delivered in a listing is kept: every balloon kept comes
/// from an entry of the listing whose delivered mark is false.
pub proof fn lemma_undelivered_skips_done(raw: Seq<RawBalloon>)
    ensures
        forall|k: int| 0 <= k < undelivered(raw).len() ==>
            exists|i: int| 0 <= i < raw.len() && !raw[i].done && raw[i].balloon == #[trigger] undelivered(raw)[k],
    decreases raw.len(),
{
    if raw.len() > 0 {
        let tail = raw.drop_first();
        lemma_undelivered_skips_done(tail);
        assert forall|k: int| 0 <= k < undelivered(raw).len() implies
            exists|i: int| 0 <= i < raw.len() && !raw[i].done && raw[i].balloon == #[trigger] undelivered(raw)[k] by {
            if raw[0].done {
                let i = choose|i: int| 0 <= i < tail.len() && !tail[i].done && tail[i].balloon == undelivered(tail)[k];
                assert(raw[i + 1] == tail[i]);
            } else if k == 0 {
                assert(undelivered(raw)[0] == raw[0].balloon);
            } else {
                assert(undelivered(raw)[k] == undelivered(tail)[k - 1]);
                let i = choose|i: int| 0 <= i < tail.len() && !tail[i].done && tail[i].balloon == undelivered(tail)[k - 1];
                assert(raw[i + 1] == tail[i]);
            }
        }
    }
}

/// The server-facing side of a balloon source: which requests to make and
/// what to keep of the answers. The transport itself lives with the caller.
pub struct DomJudgeRunner {
    pub style: AuthStyle,
    /// The contest whose balloons are handled.
    pub contest: String,
    /// The authorization header value sent with every request, if any.
    pub authorization: Option<String>,
}

impl DomJudgeRunner {
    /// A runner that authenticates every request with Basic credentials.
    pub fn new(cid: &str, user: &str, passwd: &str) -> (r: DomJudgeRunner)
        ensures
            r.style is Token,
            r.contest@ == cid@,
            r.authorization matches Some(a) && a@ == basic_auth_of(user@, passwd@),
    {
        let cred = String::from_str(user).concat(":").concat(passwd);
        let auth = String::from_str("Basic ").concat(encode_base64(cred.as_str()).as_str());
        DomJudgeRunner {
            style: AuthStyle::Token,
            contest: String::from_str(cid),
            authorization: Some(auth),
        }
    }

    /// A runner that logs in through the login form and then relies on the
    /// session cookie.
    pub fn new_session(cid: &str) -> (r: DomJudgeRunner)
        ensures
            r.style is Session,
            r.contest@ == cid@,
            r.authorization is None,
    {
        DomJudgeRunner {
            style: AuthStyle::Session,
            contest: String::from_str(cid),
            authorization: None,
        }
    }

    /// Where the balloons are listed.
    pub fn balloons_path(&self) -> (r: String)
        ensures
            r@ == balloons_path_of(self.style, self.contest@),
    {
        let head = String::from_str("api/v4/contests/").concat(self.contest.as_str());
        match self.style {
            AuthStyle::Token => head.concat("/balloons?todo=true"),
            AuthStyle::Session => head.concat("/balloons"),
        }
    }

    /// Where balloon `id` is marked delivered.
    pub fn done_path(&self, id: usize) -> (r: String)
        ensures
            r@ == done_path_of(self.style, self.contest@, id as nat),
    {
        let digits = to_decimal(id);
        match self.style {
            AuthStyle::Token => String::from_str("api/v4/contests/")
                .concat(self.contest.as_str())
                .concat("/balloons/")
                .concat(digits.as_str())
                .concat("/done"),
            AuthStyle::Session => String::from_str("jury/balloons/")
                .concat(digits.as_str())
                .concat("/done"),
        }
    }

    /// Marking a balloon delivered is a POST (true) or a plain GET (false).
    pub fn done_is_post(&self) -> (r: bool)
        ensures
            r == (self.style is Token),
    {
        match self.style {
            AuthStyle::Token => true,
            AuthStyle::Session => false,
        }
    }

    /// Keeps the balloons of a listing that are not yet delivered, in order.
    pub fn accept_batch(&self, raw: Vec<RawBalloon>) -> (r: Vec<Balloon>)
        ensures
            r@ == undelivered(raw@),
    {
        let mut rest = raw;
        let mut out: Vec<Balloon> = Vec::new();
        while rest.len() > 0
            invariant
                out@ + undelivered(rest@) == undelivered(raw@),
            decreases rest.len(),
        {
            let ghost before = rest@;
            let item = rest.remove(0);
            proof {
                assert(before.drop_first() =~= rest@);
            }
            if !item.done {
                proof {
                    assert(out@.push(item.balloon) + undelivered(rest@) =~= out@ + undelivered(before));
                }
                out.push(item.balloon);
            }
        }
        proof {
            assert(out@ + undelivered(rest@) =~= out@);
        }
        out
    }
}

/// The path of the login page.
pub fn login_path() -> (r: String)
    ensures
        r@ == "login"@,
{
    String::from_str("login")
}

/// The fields of the login form: the anti-forgery token and the credentials.
pub fn login_form(token: &str, user: &str, passwd: &str) -> (r: Vec<(String, String)>)
    ensures
        r@.map_values(|p: (String, String)| (p.0@, p.1@)) == seq![
            ("_csrf_token"@, token@),
            ("_username"@, user@),
            ("_password"@, passwd@),
        ],
{
    let mut r: Vec<(String, String)> = Vec::new();
    r.push((String::from_str("_csrf_token"), String::from_str(token)));
    r.push((String::from_str("_username"), String::from_str(user)));
    r.push((String::from_str("_password"), String::from_str(passwd)));
    proof {
        assert(r@.map_values(|p: (String, String)| (p.0@, p.1@)) =~= seq![
            ("_csrf_token"@, token@),
            ("_username"@, user@),
            ("_password"@, passwd@),
        ]);
    }
    r
}

} // verus!
