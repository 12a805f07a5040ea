use vstd::prelude::*;

use crate::string_map::StringMap;

verus! {

/// The seconds of a day.
pub const SECONDS_PER_DAY: i64 = 86400;

/// The time `days` days after `now`, in seconds, held within what 64 bits can hold.
pub open spec fn expiry_after(now: i64, days: i64) -> i64 {
    let t = now + days * SECONDS_PER_DAY;
    if t > i64::MAX {
        i64::MAX
    } else if t < i64::MIN {
        i64::MIN
    } else {
        t as i64
    }
}

/// The hosts whose certificate the user accepted although it did not check
/// out, each with the time at which the acceptance ends. Times are seconds
/// since the epoch, read by the caller.
pub struct CertificateExceptions {
    exceptions: StringMap<i64>,
}

impl View for CertificateExceptions {
    type V = Map<Seq<char>, i64>;

    closed spec fn view(&self) -> Map<Seq<char>, i64> {
        self.exceptions@
    }
}

impl CertificateExceptions {
    pub closed spec fn wf(&self) -> bool {
        self.exceptions.wf()
    }

    /// The hosts in the order in which they are listed, each once.
    pub closed spec fn hosts(&self) -> Seq<Seq<char>> {
        self.exceptions.key_seq()
    }

    pub fn new() -> (c: Self)
        ensures
            c.wf(),
            c@ == Map::<Seq<char>, i64>::empty(),
    {
        CertificateExceptions { exceptions: StringMap::new() }
    }

    /// Accepts the certificate of `host` for `days` days from `now` on.
    pub fn add_exception(&mut self, host: &str, days: i64, now: i64)
        requires
            old(self).wf(),
        ensures
            final(self).wf(),
            final(self)@ == old(self)@.insert(host@, expiry_after(now, days)),
    {
        let t: i128 = now as i128 + days as i128 * 86400;
        let expiry: i64 = if t > i64::MAX as i128 {
            i64::MAX
        } else if t < i64::MIN as i128 {
            i64::MIN
        } else {
            t as i64
        };
        let _ = self.exceptions.insert(host.to_owned(), expiry);
    }

    /// Whether the certificate of `host` is accepted at time `now`.
    pub fn is_excepted(&self, host: &str, now: i64) -> (b: bool)
        requires
            self.wf(),
        ensures
            b == (self@.contains_key(host@) && now < self@[host@]),
    {
        match self.exceptions.get(host) {
            Some(expiry) => now < *expiry,
            None => false,
        }
    }

    /// Takes the acceptance for `host` back.
    pub fn remove_exception(&mut self, host: &str)
        requires
            old(self).wf(),
        ensures
            final(self).wf(),
            final(self)@ == old(self)@.remove(host@),
    {
        let _ = self.exceptions.remove(host);
    }

    /// The hosts whose certificate is accepted at time `now`, each with the
    /// time at which the acceptance ends.
    pub fn get_all(&self, now: i64) -> (all: Vec<(String, i64)>)
        requires
            self.wf(),
        ensures
            forall|x: int|
                0 <= x < all@.len() ==> self@.contains_key((#[trigger] all@[x]).0@) && self@[all@[x].0@]
                    == all@[x].1 && now < all@[x].1,
            forall|h: Seq<char>|
                self@.contains_key(h) && now < self@[h] ==> exists|x: int|
                    0 <= x < all@.len() && (#[trigger] all@[x]).0@ == h,
            forall|x: int, y: int|
                0 <= x < y < all@.len() ==> (#[trigger] all@[x]).0@ != (#[trigger] all@[y]).0@,
    {
        let n = self.exceptions.len();
        let ghost hosts = self.exceptions.key_seq();
        proof {
            self.exceptions.lemma_len();
        }
        let mut all: Vec<(String, i64)> = Vec::new();
        let mut i: usize = 0;
        while i < n
            invariant
                i <= n,
                n == hosts.len(),
                hosts == self.exceptions.key_seq(),
                hosts.no_duplicates(),
                self.wf(),
                forall|x: int|
                    0 <= x < all@.len() ==> self@.contains_key((#[trigger] all@[x]).0@)
                        && self@[all@[x].0@] == all@[x].1 && now < all@[x].1,
                forall|x: int|
                    0 <= x < all@.len() ==> exists|j: int|
                        0 <= j < i && hosts[j] == (#[trigger] all@[x]).0@,
                forall|j: int|
                    0 <= j < i && now < self@[#[trigger] hosts[j]] ==> exists|x: int|
                        0 <= x < all@.len() && (#[trigger] all@[x]).0@ == hosts[j],
                forall|x: int, y: int|
                    0 <= x < y < all@.len() ==> (#[trigger] all@[x]).0@ != (
                    #[trigger] all@[y]).0@,
            decreases n - i,
        {
            proof {
                self.exceptions.lemma_entry(i as int);
            }
            let ghost before = all@;
            let expiry = *self.exceptions.value_at(i);
            if now < expiry {
                all.push((self.exceptions.key_at(i).clone(), expiry));
            }
            proof {
                assert forall|x: int| 0 <= x < all@.len() implies exists|j: int|
                    0 <= j < i + 1 && hosts[j] == (#[trigger] all@[x]).0@ by {
                    if x < before.len() {
                        assert(all@[x] == before[x]);
                        let j = choose|j: int| 0 <= j < i && hosts[j] == before[x].0@;
                        assert(0 <= j < i + 1 && hosts[j] == all@[x].0@);
                    } else {
                        assert(0 <= i < i + 1 && hosts[i as int] == all@[x].0@);
                    }
                }
                assert forall|j: int|
                    0 <= j < i + 1 && now < self@[#[trigger] hosts[j]] implies exists|x: int|
                    0 <= x < all@.len() && (#[trigger] all@[x]).0@ == hosts[j] by {
                    if j < i {
                        let x = choose|x: int|
                            0 <= x < before.len() && (#[trigger] before[x]).0@ == hosts[j];
                        assert(all@[x] == before[x]);
                    } else {
                        assert(all@[before.len() as int].0@ == hosts[j]);
                    }
                }
                assert forall|x: int, y: int| 0 <= x < y < all@.len() implies (
                #[trigger] all@[x]).0@ != (#[trigger] all@[y]).0@ by {
                    if y == before.len() {
                        assert(all@[x] == before[x]);
                        let j = choose|j: int| 0 <= j < i && hosts[j] == before[x].0@;
                        assert(hosts[j] != hosts[i as int]);
                    } else {
                        assert(all@[x] == before[x] && all@[y] == before[y]);
                    }
                }
            }
            i += 1;
        }
        proof {
            assert forall|h: Seq<char>| self@.contains_key(h) && now < self@[h] implies exists|
                x: int,
            |
                0 <= x < all@.len() && (#[trigger] all@[x]).0@ == h by {
                assert(hosts.to_set().contains(h));
                let j = choose|j: int| 0 <= j < hosts.len() && hosts[j] == h;
                assert(now < self@[hosts[j]]);
            }
        }
        all
    }
}

} // verus!
