use vstd::prelude::*;
use vstd::string::*;

use crate::encode::append_escaped;
use crate::encode::base64_string;
use crate::encode::escape_json;
use crate::encode::spec_base64;

verus! {

/// The caller identity sent to the remote evaluator: a key and free-form
/// string attributes. Attribute keys are unique; inserting an existing key
/// replaces its value, as a map insert would.
pub struct FPUser {
    pub key: String,
    attrs: Vec<(String, String)>,
}

/// The mathematical model of an [`FPUser`]: the key and the attribute pairs,
/// in insertion order.
#[verifier::ext_equal]
pub struct FPUserModel {
    pub key: Seq<char>,
    pub attrs: Seq<(Seq<char>, Seq<char>)>,
}

/// The attribute pairs of `s`, each as its pair of character sequences.
pub open spec fn attrs_model(s: Seq<(String, String)>) -> Seq<(Seq<char>, Seq<char>)> {
    s.map_values(|p: (String, String)| (p.0@, p.1@))
}

impl View for FPUser {
    type V = FPUserModel;

    closed spec fn view(&self) -> FPUserModel {
        FPUserModel { key: self.key@, attrs: attrs_model(self.attrs@) }
    }
}

/// True when no attribute key occurs twice.
pub open spec fn unique_keys(attrs: Seq<(Seq<char>, Seq<char>)>) -> bool {
    forall|i: int, j: int|
        0 <= i < attrs.len() && 0 <= j < attrs.len() && i != j ==> attrs[i].0 != attrs[j].0
}

/// The attribute pairs read as a map; a later pair overrides an earlier one
/// with the same key.
pub open spec fn attrs_as_map(attrs: Seq<(Seq<char>, Seq<char>)>) -> Map<Seq<char>, Seq<char>>
    decreases attrs.len(),
{
    if attrs.len() == 0 {
        Map::empty()
    } else {
        attrs_as_map(attrs.drop_last()).insert(attrs.last().0, attrs.last().1)
    }
}

proof fn lemma_attrs_as_map_index(attrs: Seq<(Seq<char>, Seq<char>)>, i: int)
    requires
        unique_keys(attrs),
        0 <= i < attrs.len(),
    ensures
        attrs_as_map(attrs).contains_key(attrs[i].0),
        attrs_as_map(attrs)[attrs[i].0] == attrs[i].1,
    decreases attrs.len(),
{
    if i + 1 < attrs.len() {
        assert(attrs.drop_last()[i] == attrs[i]);
        lemma_attrs_as_map_index(attrs.drop_last(), i);
    }
}

proof fn lemma_attrs_as_map_absent(attrs: Seq<(Seq<char>, Seq<char>)>, k: Seq<char>)
    requires
        forall|i: int| 0 <= i < attrs.len() ==> attrs[i].0 != k,
    ensures
        !attrs_as_map(attrs).contains_key(k),
    decreases attrs.len(),
{
    if attrs.len() > 0 {
        assert(forall|i: int|
            0 <= i < attrs.drop_last().len() ==> attrs.drop_last()[i].0 != k);
        lemma_attrs_as_map_absent(attrs.drop_last(), k);
    }
}

/// The first position holding key `k`, or the length when `k` is absent.
pub open spec fn index_of_key(attrs: Seq<(Seq<char>, Seq<char>)>, k: Seq<char>) -> int
    decreases attrs.len(),
{
    if attrs.len() == 0 {
        0
    } else if attrs[0].0 == k {
        0
    } else {
        1 + index_of_key(attrs.drop_first(), k)
    }
}

impl FPUser {
    /// True when the attribute keys are unique — every value built through
    /// this type's operations keeps it.
    pub open spec fn wf(&self) -> bool {
        unique_keys(self@.attrs)
    }

    /// A user with the given key and no attributes.
    pub fn new(key: String) -> (r: FPUser)
        ensures
            r@.key == key@,
            r@.attrs.len() == 0,
            r.wf(),
    {
        let u = FPUser { key, attrs: Vec::new() };
        proof {
            assert(u@.attrs =~~= Seq::<(Seq<char>, Seq<char>)>::empty());
        }
        u
    }

    /// Sets one attribute, replacing the value when the key is present,
    /// appending the pair when it is not.
    pub fn with(self, k: String, v: String) -> (r: FPUser)
        requires
            self.wf(),
        ensures
            r@.key == self@.key,
            r.wf(),
            (exists|i: int| 0 <= i < self@.attrs.len() && self@.attrs[i].0 == k@) ==> r@.attrs
                =~~= self@.attrs.update(index_of_key(self@.attrs, k@), (k@, v@)),
            (forall|i: int| 0 <= i < self@.attrs.len() ==> self@.attrs[i].0 != k@) ==> r@.attrs
                =~~= self@.attrs.push((k@, v@)),
    {
        let mut this = self;
        let n: usize = this.attrs.len();
        let mut i: usize = 0;
        while i < n
            invariant
                i <= n,
                n == this.attrs.len(),
                this == self,
                self.wf(),
                forall|j: int| 0 <= j < i ==> this@.attrs[j].0 != k@,
            decreases n - i,
        {
            if string_eq(&this.attrs[i].0, &k) {
                proof {
                    lemma_index_of_key_found(self@.attrs, k@, i as int);
                }
                this.attrs.set(i, (k, v));
                proof {
                    let a2 = this@.attrs;
                    assert(a2 =~~= self@.attrs.update(i as int, (k@, v@)));
                    assert(self@.attrs[i as int].0 == k@);
                    assert forall|p: int, q: int|
                        0 <= p < a2.len() && 0 <= q < a2.len() && p != q implies a2[p].0
                        != a2[q].0 by {
                        assert(self@.attrs[p].0 != self@.attrs[q].0);
                    }
                }
                return this;
            }
            i += 1;
        }
        this.attrs.push((k, v));
        proof {
            let a2 = this@.attrs;
            assert(a2 =~~= self@.attrs.push((k@, v@)));
            assert forall|p: int, q: int|
                0 <= p < a2.len() && 0 <= q < a2.len() && p != q implies a2[p].0 != a2[q].0 by {
                if p < self@.attrs.len() && q < self@.attrs.len() {
                    assert(self@.attrs[p].0 != self@.attrs[q].0);
                } else if p < self@.attrs.len() {
                    assert(self@.attrs[p].0 != k@);
                } else {
                    assert(self@.attrs[q].0 != k@);
                }
            }
        }
        this
    }

    /// Sets each given attribute in turn, as [`FPUser::with`] would.
    pub fn with_attrs(self, attrs: Vec<(String, String)>) -> (r: FPUser)
        requires
            self.wf(),
        ensures
            r@.key == self@.key,
            r.wf(),
            r@.attrs == with_all(self@.attrs, attrs_model(attrs@)),
    {
        let mut this = self;
        let n: usize = attrs.len();
        let mut i: usize = 0;
        while i < n
            invariant
                i <= n,
                n == attrs.len(),
                this@.key == self@.key,
                this.wf(),
                this@.attrs == with_all(self@.attrs, attrs_model(attrs@).take(i as int)),
            decreases n - i,
        {
            let ghost before = this@.attrs;
            let k = attrs[i].0.clone();
            let v = attrs[i].1.clone();
            this = this.with(k, v);
            proof {
                assert(this@.attrs =~~= with_one(before, (k@, v@)));
                assert(attrs_model(attrs@).take(i + 1).drop_last() =~~= attrs_model(
                    attrs@,
                ).take(i as int));
                assert(attrs_model(attrs@).take(i + 1).last() == (k@, v@));
                lemma_with_all_push(
                    self@.attrs,
                    attrs_model(attrs@).take(i as int),
                    (k@, v@),
                );
                assert(attrs_model(attrs@).take(i as int).push((k@, v@)) =~~= attrs_model(
                    attrs@,
                ).take(i + 1));
            }
            i += 1;
        }
        proof {
            assert(attrs_model(attrs@).take(n as int) =~~= attrs_model(attrs@));
        }
        this
    }

    /// The user's key.
    pub fn key(&self) -> (r: &String)
        ensures
            r@ == self@.key,
    {
        &self.key
    }

    /// The value stored for attribute key `k`, when there is one.
    pub fn get(&self, k: &str) -> (r: Option<&String>)
        requires
            self.wf(),
        ensures
            (match r {
                Some(v) => attrs_as_map(self@.attrs).contains_key(k@) && attrs_as_map(
                    self@.attrs,
                )[k@] == v@,
                None => !attrs_as_map(self@.attrs).contains_key(k@),
            }),
    {
        let n: usize = self.attrs.len();
        let mut i: usize = 0;
        while i < n
            invariant
                i <= n,
                n == self.attrs.len(),
                self.wf(),
                forall|j: int| 0 <= j < i ==> self@.attrs[j].0 != k@,
            decreases n - i,
        {
            if str_eq_string(k, &self.attrs[i].0) {
                proof {
                    lemma_attrs_as_map_index(self@.attrs, i as int);
                }
                return Some(&self.attrs[i].1);
            }
            i += 1;
        }
        proof {
            lemma_attrs_as_map_absent(self@.attrs, k@);
        }
        None
    }

    /// All attributes, in insertion order.
    pub fn get_all(&self) -> (r: &Vec<(String, String)>)
        ensures
            attrs_model(r@) == self@.attrs,
    {
        &self.attrs
    }

    /// The stable wire encoding of this user: its canonical JSON document,
    /// UTF-8 encoded, wrapped in base64. Sent as the `user` query parameter
    /// of every sync request.
    pub fn as_base64(&self) -> (r: String)
        ensures
            r@ == spec_base64(vstd::utf8::encode_utf8(spec_user_json(self@))),
    {
        let mut json = String::new();
        json.append("{\"key\":\"");
        append_escaped(&mut json, self.key.as_str());
        json.append("\",\"attrs\":{");
        proof {
            assert(json@ =~= "{\"key\":\""@ + escape_json(self@.key) + "\",\"attrs\":{"@
                + spec_attrs_json(self@.attrs.take(0)));
        }
        let n: usize = self.attrs.len();
        let mut i: usize = 0;
        while i < n
            invariant
                i <= n,
                n == self.attrs.len(),
                json@ == "{\"key\":\""@ + escape_json(self@.key) + "\",\"attrs\":{"@
                    + spec_attrs_json(self@.attrs.take(i as int)),
            decreases n - i,
        {
            if i > 0 {
                json.append(",");
            }
            json.append("\"");
            append_escaped(&mut json, self.attrs[i].0.as_str());
            json.append("\":\"");
            append_escaped(&mut json, self.attrs[i].1.as_str());
            json.append("\"");
            proof {
                assert(self@.attrs.take(i + 1).drop_last() =~= self@.attrs.take(i as int));
                assert(self@.attrs.take(i + 1).last() == self@.attrs[i as int]);
                assert(json@ =~= "{\"key\":\""@ + escape_json(self@.key) + "\",\"attrs\":{"@
                    + spec_attrs_json(self@.attrs.take(i + 1)));
            }
            i += 1;
        }
        json.append("}}");
        proof {
            assert(self@.attrs.take(n as int) =~= self@.attrs);
            assert(json@ =~= spec_user_json(self@));
        }
        let bytes = json.as_str().as_bytes_vec();
        base64_string(&bytes)
    }
}

impl Clone for FPUser {
    fn clone(&self) -> (r: Self)
        ensures
            r@ == self@,
    {
        let mut attrs: Vec<(String, String)> = Vec::new();
        let n: usize = self.attrs.len();
        let mut i: usize = 0;
        while i < n
            invariant
                i <= n,
                n == self.attrs.len(),
                attrs_model(attrs@) =~~= self@.attrs.take(i as int),
            decreases n - i,
        {
            let ghost old_attrs = attrs@;
            attrs.push((self.attrs[i].0.clone(), self.attrs[i].1.clone()));
            proof {
                assert(attrs_model(old_attrs).len() == i);
                assert(old_attrs.len() == attrs_model(old_attrs).len());
                assert(attrs_model(attrs@) =~~= self@.attrs.take(i + 1));
            }
            i += 1;
        }
        let r = FPUser { key: self.key.clone(), attrs };
        proof {
            assert(self@.attrs.take(n as int) =~~= self@.attrs);
            assert(r@ =~~= self@);
        }
        r
    }
}

impl Default for FPUser {
    /// A user with an empty key and no attributes.
    fn default() -> (r: FPUser)
        ensures
            r@.key.len() == 0,
            r@.attrs.len() == 0,
            r.wf(),
    {
        FPUser::new(String::new())
    }
}

proof fn lemma_index_of_key_found(attrs: Seq<(Seq<char>, Seq<char>)>, k: Seq<char>, i: int)
    requires
        0 <= i < attrs.len(),
        attrs[i].0 == k,
        forall|j: int| 0 <= j < i ==> attrs[j].0 != k,
    ensures
        index_of_key(attrs, k) == i,
    decreases attrs.len(),
{
    if i > 0 {
        assert(forall|j: int|
            0 <= j < i - 1 ==> attrs.drop_first()[j].0 != k);
        lemma_index_of_key_found(attrs.drop_first(), k, i - 1);
    }
}

/// One attribute set into a pair list: the value replaced in place when the
/// key is present, the pair appended when it is not.
pub open spec fn with_one(
    attrs: Seq<(Seq<char>, Seq<char>)>,
    p: (Seq<char>, Seq<char>),
) -> Seq<(Seq<char>, Seq<char>)> {
    if exists|i: int| 0 <= i < attrs.len() && attrs[i].0 == p.0 {
        attrs.update(index_of_key(attrs, p.0), p)
    } else {
        attrs.push(p)
    }
}

/// Each pair of `new` set into `attrs` in turn, first pair first.
pub open spec fn with_all(
    attrs: Seq<(Seq<char>, Seq<char>)>,
    new: Seq<(Seq<char>, Seq<char>)>,
) -> Seq<(Seq<char>, Seq<char>)>
    decreases new.len(),
{
    if new.len() == 0 {
        attrs
    } else {
        with_all(with_one(attrs, new[0]), new.drop_first())
    }
}

proof fn lemma_with_all_push(
    attrs: Seq<(Seq<char>, Seq<char>)>,
    new: Seq<(Seq<char>, Seq<char>)>,
    p: (Seq<char>, Seq<char>),
)
    ensures
        with_all(attrs, new.push(p)) == with_one(with_all(attrs, new), p),
    decreases new.len(),
{
    if new.len() == 0 {
        let tail = new.push(p).drop_first();
        assert(tail =~~= Seq::<(Seq<char>, Seq<char>)>::empty());
        assert(new.push(p)[0] == p);
        assert(with_all(attrs, new.push(p)) == with_all(with_one(attrs, p), tail));
        assert(with_all(with_one(attrs, p), tail) == with_one(attrs, p));
        assert(with_all(attrs, new) == attrs);
    } else {
        assert(new.push(p)[0] == new[0]);
        assert(new.push(p).drop_first() =~~= new.drop_first().push(p));
        assert(with_all(attrs, new.push(p)) == with_all(
            with_one(attrs, new[0]),
            new.drop_first().push(p),
        ));
        lemma_with_all_push(with_one(attrs, new[0]), new.drop_first(), p);
        assert(with_all(attrs, new) == with_all(with_one(attrs, new[0]), new.drop_first()));
    }
}

/// One attribute pair as it appears in the canonical user JSON.
pub open spec fn spec_pair_json(p: (Seq<char>, Seq<char>)) -> Seq<char> {
    "\""@ + escape_json(p.0) + "\":\""@ + escape_json(p.1) + "\""@
}

/// The attribute pairs as the comma-joined body of a JSON object, in
/// insertion order.
pub open spec fn spec_attrs_json(attrs: Seq<(Seq<char>, Seq<char>)>) -> Seq<char>
    decreases attrs.len(),
{
    if attrs.len() == 0 {
        Seq::empty()
    } else if attrs.len() == 1 {
        spec_pair_json(attrs[0])
    } else {
        spec_attrs_json(attrs.drop_last()) + ","@ + spec_pair_json(attrs.last())
    }
}

/// The canonical JSON document identifying a user.
pub open spec fn spec_user_json(u: FPUserModel) -> Seq<char> {
    "{\"key\":\""@ + escape_json(u.key) + "\",\"attrs\":{"@ + spec_attrs_json(u.attrs) + "}}"@
}

/// String equality by characters.
fn string_eq(a: &String, b: &String) -> (r: bool)
    ensures
        r == (a@ == b@),
{
    a.eq(b)
}

/// Slice-against-string equality by characters.
fn str_eq_string(a: &str, b: &String) -> (r: bool)
    ensures
        r == (a@ == b@),
{
    b.eq(&a.to_owned())
}

} // verus!
