//! Iteration over a slice in windows and chunks of a fixed length `N`.
use vstd::prelude::*;
use vstd::slice::slice_subrange;
use vstd::arithmetic::div_mod::{lemma_div_by_multiple, lemma_fundamental_div_mod, lemma_mod_multiples_basic};
use vstd::arithmetic::mul::lemma_mul_inequality;

verus! {

/// The `N` elements of `s` starting at `start`.
pub open spec fn window_at<T>(s: Seq<T>, start: int, n: int) -> Seq<T> {
    s.subrange(start, start + n)
}

/// All windows of `n` consecutive elements of `s`, in order of their first element.
pub open spec fn all_windows<T>(s: Seq<T>, n: nat) -> Seq<Seq<T>> {
    Seq::new(
        if s.len() >= n { (s.len() - n + 1) as nat } else { 0 },
        |k: int| window_at(s, k, n as int),
    )
}

/// The whole chunks of `n` elements at the start of `s`, in order.
pub open spec fn all_chunks<T>(s: Seq<T>, n: nat) -> Seq<Seq<T>>
    recommends
        n > 0,
{
    Seq::new(s.len() / n, |k: int| window_at(s, k * n, n as int))
}

/// The elements of `s` after its last whole chunk of `n` elements.
pub open spec fn chunk_remainder<T>(s: Seq<T>, n: nat) -> Seq<T>
    recommends
        n > 0,
{
    s.subrange((s.len() / n) * n as int, s.len() as int)
}

/// `<[T]>::first_chunk`: the first `N` elements of `s` as an array, if `s` has that many.
///
/// The contract states that the call returns `None` exactly when `s` is shorter than `N`, and
/// otherwise an array holding the first `N` elements of `s`.
#[verifier::external_body]
fn first_chunk<T, const N: usize>(s: &[T]) -> (res: Option<&[T; N]>)
    ensures
        s@.len() < N ==> res is None,
        N <= s@.len() ==> res is Some && res.unwrap()@ == s@.subrange(0, N as int),
{
    s.first_chunk::<N>()
}

/// `<[T]>::first_chunk_mut`: the first `N` elements of `s` as a mutable array, if `s` has that
/// many.
///
/// The contract states that the call returns `None` exactly when `s` is shorter than `N`, and
/// otherwise an array holding the first `N` elements of `s`; what is written through the array
/// is what those elements hold afterwards, and the other elements keep their values.
#[verifier::external_body]
fn first_chunk_mut<T, const N: usize>(s: &mut [T]) -> (res: Option<&mut [T; N]>)
    ensures
        old(s)@.len() < N ==> res is None && final(s)@ == old(s)@,
        N <= old(s)@.len() ==> res is Some && (*res.unwrap())@ == old(s)@.subrange(0, N as int)
            && final(s)@ == final(res.unwrap())@ + old(s)@.subrange(N as int, old(s)@.len() as int),
{
    s.first_chunk_mut::<N>()
}

/// The contents of each array of `a`.
pub open spec fn array_views<T, const N: usize>(a: Seq<[T; N]>) -> Seq<Seq<T>> {
    a.map_values(|x: [T; N]| x@)
}

/// `<[T]>::as_chunks`: the whole `N`-element chunks at the start of `s` as arrays, and the
/// elements after them. `N` must not be zero: the call panics then.
///
/// The contract states that the arrays are the consecutive `N`-element chunks of `s` and that the
/// remainder holds the elements after the last of them.
#[verifier::external_body]
fn std_as_chunks<T, const N: usize>(s: &[T]) -> (res: (&[[T; N]], &[T]))
    requires
        N > 0,
    ensures
        array_views(res.0@) == all_chunks(s@, N as nat),
        res.1@ == chunk_remainder(s@, N as nat),
{
    s.as_chunks::<N>()
}

/// `<[T]>::as_chunks_mut`: the whole `N`-element chunks at the start of `s` as mutable arrays,
/// and the elements after them. `N` must not be zero: the call panics then.
///
/// The contract states that the arrays are the consecutive `N`-element chunks of `s` and that the
/// remainder holds the elements after the last of them; what `s` holds afterwards is what was
/// written through the arrays, one after the other, followed by what was written through the
/// remainder.
#[verifier::external_body]
fn std_as_chunks_mut<T, const N: usize>(s: &mut [T]) -> (res: (&mut [[T; N]], &mut [T]))
    requires
        N > 0,
    ensures
        array_views(res.0@) == all_chunks(old(s)@, N as nat),
        res.1@ == chunk_remainder(old(s)@, N as nat),
        final(s)@ == array_views(final(res.0)@).flatten() + final(res.1)@,
{
    s.as_chunks_mut::<N>()
}

/// A slice of exactly `N` elements as a mutable array.
fn array_mut<T, const N: usize>(s: &mut [T]) -> (res: &mut [T; N])
    requires
        old(s)@.len() == N,
    ensures
        res@ == old(s)@,
        final(s)@ == final(res)@,
{
    let res = first_chunk_mut::<T, N>(s);
    proof {
        assert(old(s)@.subrange(0, N as int) =~= old(s)@);
        assert(old(s)@.subrange(N as int, N as int) =~= Seq::<T>::empty());
    }
    res.unwrap()
}

/// The `N` elements of `s` starting at `start`, as an array.
fn array_at<'a, T, const N: usize>(s: &'a [T], start: usize) -> (res: &'a [T; N])
    requires
        start + N <= s@.len(),
    ensures
        res@ == window_at(s@, start as int, N as int),
{
    let len = s.len();
    assert(start + N <= len);
    let w = slice_subrange(s, start, start + N);
    let res = first_chunk::<T, N>(w).unwrap();
    assert(res@ =~= window_at(s@, start as int, N as int));
    res
}

/// An iterator over overlapping windows of `N` elements of a slice, starting at the beginning of
/// the slice. Created by [`array_windows`].
pub struct ArrayWindows<'a, T, const N: usize> {
    slice: &'a [T],
    head: usize,
    num: usize,
}

impl<'a, T, const N: usize> ArrayWindows<'a, T, N> {
    #[verifier::type_invariant]
    closed spec fn inv(self) -> bool {
        &&& N > 0
        &&& self.slice@.len() <= usize::MAX
        &&& self.num > 0 ==> self.head + self.num + N - 1 <= self.slice@.len()
    }
}

impl<'a, T, const N: usize> View for ArrayWindows<'a, T, N> {
    type V = Seq<Seq<T>>;

    /// The windows the iterator has yet to yield, front first.
    closed spec fn view(&self) -> Seq<Seq<T>> {
        Seq::new(self.num as nat, |k: int| window_at(self.slice@, self.head + k, N as int))
    }
}

impl<'a, T, const N: usize> ArrayWindows<'a, T, N> {
    fn new(slice: &'a [T]) -> (res: Self)
        requires
            N > 0,
        ensures
            res@ == all_windows(slice@, N as nat),
    {
        let num_windows = slice.len().saturating_sub(N - 1);
        let res = Self { slice, head: 0, num: num_windows };
        assert(res@ =~= all_windows(slice@, N as nat));
        res
    }

    fn window(&self, start: usize) -> (res: &'a [T; N])
        requires
            self.num > 0,
            self.head <= start < self.head + self.num,
        ensures
            res@ == window_at(self.slice@, start as int, N as int),
    {
        proof {
            use_type_invariant(self);
        }
        array_at(self.slice, start)
    }

    /// Yields the next window.
    pub fn next(&mut self) -> (res: Option<&'a [T; N]>)
        ensures
            old(self)@.len() == 0 ==> res is None && final(self)@ == old(self)@,
            old(self)@.len() > 0 ==> (res matches Some(w) && w@ == old(self)@[0] && final(self)@
                == old(self)@.drop_first()),
    {
        proof {
            use_type_invariant(&*self);
        }
        if self.num == 0 {
            return None;
        }
        let ret = self.window(self.head);
        self.num = self.num - 1;
        self.head = self.head + 1;
        assert(self@ =~= old(self)@.drop_first());
        Some(ret)
    }

    /// The number of windows left, as lower and upper bound.
    pub fn size_hint(&self) -> (res: (usize, Option<usize>))
        ensures
            res.0 == self@.len(),
            res.1 == Some(self@.len() as usize),
    {
        (self.num, Some(self.num))
    }

    /// The number of windows left.
    pub fn count(self) -> (res: usize)
        ensures
            res == self@.len(),
    {
        self.num
    }

    /// Skips `n` windows and yields the one after them; with fewer than `n + 1` windows left it
    /// yields nothing and leaves none.
    pub fn nth(&mut self, n: usize) -> (res: Option<&'a [T; N]>)
        ensures
            old(self)@.len() <= n ==> res is None && final(self)@.len() == 0,
            old(self)@.len() > n ==> (res matches Some(w) && w@ == old(self)@[n as int]
                && final(self)@ == old(self)@.subrange(n + 1, old(self)@.len() as int)),
    {
        proof {
            use_type_invariant(&*self);
        }
        if self.num <= n {
            self.num = 0;
            assert(self@.len() == 0);
            return None;
        }
        let ret = self.window(self.head + n);
        self.num = self.num - (n + 1);
        self.head = self.head + (n + 1);
        assert(self@ =~= old(self)@.subrange(n + 1, old(self)@.len() as int));
        Some(ret)
    }

    /// The last window left, if any.
    pub fn last(self) -> (res: Option<&'a [T; N]>)
        ensures
            self@.len() == 0 ==> res is None,
            self@.len() > 0 ==> (res matches Some(w) && w@ == self@.last()),
    {
        proof {
            use_type_invariant(&self);
        }
        if self.num == 0 {
            return None;
        }
        let ret = self.window(self.head + (self.num - 1));
        Some(ret)
    }

    /// Yields the last window.
    pub fn next_back(&mut self) -> (res: Option<&'a [T; N]>)
        ensures
            old(self)@.len() == 0 ==> res is None && final(self)@ == old(self)@,
            old(self)@.len() > 0 ==> (res matches Some(w) && w@ == old(self)@.last()
                && final(self)@ == old(self)@.drop_last()),
    {
        proof {
            use_type_invariant(&*self);
        }
        if self.num == 0 {
            return None;
        }
        let ret = self.window(self.head + (self.num - 1));
        self.num = self.num - 1;
        assert(self@ =~= old(self)@.drop_last());
        Some(ret)
    }

    /// Skips `n` windows from the back and yields the one before them; with fewer than `n + 1`
    /// windows left it yields nothing and leaves none.
    pub fn nth_back(&mut self, n: usize) -> (res: Option<&'a [T; N]>)
        ensures
            old(self)@.len() <= n ==> res is None && final(self)@.len() == 0,
            old(self)@.len() > n ==> (res matches Some(w) && w@ == old(self)@[old(self)@.len() - 1
                - n] && final(self)@ == old(self)@.subrange(0, old(self)@.len() - 1 - n)),
    {
        proof {
            use_type_invariant(&*self);
        }
        if self.num <= n {
            self.num = 0;
            assert(self@.len() == 0);
            return None;
        }
        let ret = self.window(self.head + (self.num - (n + 1)));
        self.num = self.num - (n + 1);
        assert(self@ =~= old(self)@.subrange(0, old(self)@.len() - 1 - n));
        Some(ret)
    }
}

impl<'a, T, const N: usize> Clone for ArrayWindows<'a, T, N> {
    fn clone(&self) -> (res: Self)
        ensures
            res@ == self@,
    {
        proof {
            use_type_invariant(self);
        }
        ArrayWindows { slice: self.slice, head: self.head, num: self.num }
    }
}

impl<'a, T, const N: usize> Copy for ArrayWindows<'a, T, N> {}

/// Returns an iterator over overlapping windows of `N` elements of a slice, starting at the
/// beginning of the slice. If `N` is greater than the length of the slice, there are no windows.
/// `N` must not be zero.
pub fn array_windows<'a, T, const N: usize>(slice: &'a [T]) -> (res: ArrayWindows<'a, T, N>)
    requires
        N != 0,
    ensures
        res@ == all_windows(slice@, N as nat),
{
    ArrayWindows::new(slice)
}

/// An iterator over a slice in non-overlapping chunks of `N` elements, starting at the beginning
/// of the slice. When `N` does not divide the length of the slice, the last up to `N - 1` elements
/// are not yielded; [`ArrayChunks::remainder`] returns them. Created by [`array_chunks`].
pub struct ArrayChunks<'a, T, const N: usize> {
    chunks: &'a [T],
    front: usize,
    back: usize,
    rem: &'a [T],
}

impl<'a, T, const N: usize> ArrayChunks<'a, T, N> {
    #[verifier::type_invariant]
    closed spec fn inv(self) -> bool {
        &&& N > 0
        &&& self.chunks@.len() <= usize::MAX
        &&& self.front <= self.back
        &&& self.back * N <= self.chunks@.len()
        &&& self.rem@.len() < N
    }

    /// The elements after the last whole chunk.
    pub closed spec fn rest(&self) -> Seq<T> {
        self.rem@
    }
}

impl<'a, T, const N: usize> View for ArrayChunks<'a, T, N> {
    type V = Seq<Seq<T>>;

    /// The chunks the iterator has yet to yield, front first.
    closed spec fn view(&self) -> Seq<Seq<T>> {
        Seq::new(
            (self.back - self.front) as nat,
            |k: int| window_at(self.chunks@, (self.front + k) * N, N as int),
        )
    }
}

proof fn lemma_chunk_in_bounds(c: int, back: int, n: int, len: int)
    requires
        0 <= c < back,
        n > 0,
        back * n <= len,
    ensures
        0 <= c * n,
        c * n + n <= len,
{
    lemma_mul_inequality(c + 1, back, n);
    assert((c + 1) * n == c * n + n) by (nonlinear_arith);
    assert(0 <= c * n) by (nonlinear_arith)
        requires
            c >= 0,
            n > 0,
    ;
}

impl<'a, T, const N: usize> ArrayChunks<'a, T, N> {
    fn new(slice: &'a [T]) -> (res: Self)
        requires
            N > 0,
        ensures
            res@ == all_chunks(slice@, N as nat),
            res.rest() == chunk_remainder(slice@, N as nat),
    {
        let len = slice.len() / N;
        proof {
            lemma_fundamental_div_mod(slice@.len() as int, N as int);
            assert(len * N <= slice@.len()) by (nonlinear_arith)
                requires
                    slice@.len() == N * len + (slice@.len() as int) % (N as int),
                    (slice@.len() as int) % (N as int) >= 0,
            ;
        }
        let split = len * N;
        let chunks = slice_subrange(slice, 0, split);
        let rem = slice_subrange(slice, split, slice.len());
        let res = Self { chunks, front: 0, back: len, rem };
        proof {
            assert forall|k: int| 0 <= k < len implies #[trigger] window_at(
                chunks@,
                k * N,
                N as int,
            ) == window_at(slice@, k * N, N as int) by {
                lemma_chunk_in_bounds(k, len as int, N as int, split as int);
                assert(window_at(chunks@, k * N, N as int) =~= window_at(slice@, k * N, N as int));
            }
            assert(res@ =~= all_chunks(slice@, N as nat));
        }
        res
    }

    fn chunk(&self, c: usize) -> (res: &'a [T; N])
        requires
            self.front <= c < self.back,
        ensures
            res@ == window_at(self.chunks@, c * N, N as int),
    {
        proof {
            use_type_invariant(self);
            lemma_chunk_in_bounds(c as int, self.back as int, N as int, self.chunks@.len() as int);
        }
        array_at(self.chunks, c * N)
    }

    /// Returns the remainder of the original slice that is not going to be returned by the
    /// iterator. The returned slice has at most `N - 1` elements.
    #[must_use]
    pub fn remainder(&self) -> (res: &'a [T])
        ensures
            res@ == self.rest(),
            res@.len() < N,
    {
        proof {
            use_type_invariant(self);
        }
        self.rem
    }

    /// Yields the next chunk.
    pub fn next(&mut self) -> (res: Option<&'a [T; N]>)
        ensures
            final(self).rest() == old(self).rest(),
            old(self)@.len() == 0 ==> res is None && final(self)@ == old(self)@,
            old(self)@.len() > 0 ==> (res matches Some(w) && w@ == old(self)@[0] && final(self)@
                == old(self)@.drop_first()),
    {
        proof {
            use_type_invariant(&*self);
        }
        if self.front == self.back {
            return None;
        }
        let ret = self.chunk(self.front);
        self.front = self.front + 1;
        assert(self@ =~= old(self)@.drop_first());
        Some(ret)
    }

    /// The number of chunks left, as lower and upper bound.
    pub fn size_hint(&self) -> (res: (usize, Option<usize>))
        ensures
            res.0 == self@.len(),
            res.1 == Some(self@.len() as usize),
    {
        proof {
            use_type_invariant(self);
        }
        let n = self.back - self.front;
        (n, Some(n))
    }

    /// The number of chunks left.
    pub fn count(self) -> (res: usize)
        ensures
            res == self@.len(),
    {
        proof {
            use_type_invariant(&self);
        }
        self.back - self.front
    }

    /// Skips `n` chunks and yields the one after them; with fewer than `n + 1` chunks left it
    /// yields nothing and leaves none.
    pub fn nth(&mut self, n: usize) -> (res: Option<&'a [T; N]>)
        ensures
            final(self).rest() == old(self).rest(),
            old(self)@.len() <= n ==> res is None && final(self)@.len() == 0,
            old(self)@.len() > n ==> (res matches Some(w) && w@ == old(self)@[n as int] && final(
                self)@ == old(self)@.subrange(n + 1, old(self)@.len() as int)),
    {
        proof {
            use_type_invariant(&*self);
        }
        if self.back - self.front <= n {
            self.front = self.back;
            assert(self@.len() == 0);
            return None;
        }
        let ret = self.chunk(self.front + n);
        self.front = self.front + n + 1;
        assert(self@ =~= old(self)@.subrange(n + 1, old(self)@.len() as int));
        Some(ret)
    }

    /// The last chunk left, if any.
    pub fn last(self) -> (res: Option<&'a [T; N]>)
        ensures
            self@.len() == 0 ==> res is None,
            self@.len() > 0 ==> (res matches Some(w) && w@ == self@.last()),
    {
        proof {
            use_type_invariant(&self);
        }
        if self.front == self.back {
            return None;
        }
        let ret = self.chunk(self.back - 1);
        Some(ret)
    }

    /// Yields the last chunk.
    pub fn next_back(&mut self) -> (res: Option<&'a [T; N]>)
        ensures
            final(self).rest() == old(self).rest(),
            old(self)@.len() == 0 ==> res is None && final(self)@ == old(self)@,
            old(self)@.len() > 0 ==> (res matches Some(w) && w@ == old(self)@.last() && final(
                self)@ == old(self)@.drop_last()),
    {
        proof {
            use_type_invariant(&*self);
        }
        if self.front == self.back {
            return None;
        }
        let ret = self.chunk(self.back - 1);
        proof {
            lemma_mul_inequality(self.back - 1, self.back as int, N as int);
        }
        self.back = self.back - 1;
        assert(self@ =~= old(self)@.drop_last());
        Some(ret)
    }

    /// Skips `n` chunks from the back and yields the one before them; with fewer than `n + 1`
    /// chunks left it yields nothing and leaves none.
    pub fn nth_back(&mut self, n: usize) -> (res: Option<&'a [T; N]>)
        ensures
            final(self).rest() == old(self).rest(),
            old(self)@.len() <= n ==> res is None && final(self)@.len() == 0,
            old(self)@.len() > n ==> (res matches Some(w) && w@ == old(self)@[old(self)@.len() - 1
                - n] && final(self)@ == old(self)@.subrange(0, old(self)@.len() - 1 - n)),
    {
        proof {
            use_type_invariant(&*self);
        }
        if self.back - self.front <= n {
            proof {
                lemma_mul_inequality(self.front as int, self.back as int, N as int);
            }
            self.back = self.front;
            assert(self@.len() == 0);
            return None;
        }
        let ret = self.chunk(self.back - 1 - n);
        proof {
            lemma_mul_inequality(self.back - 1 - n, self.back as int, N as int);
        }
        self.back = self.back - 1 - n;
        assert(self@ =~= old(self)@.subrange(0, old(self)@.len() - 1 - n));
        Some(ret)
    }
}

impl<'a, T, const N: usize> Clone for ArrayChunks<'a, T, N> {
    fn clone(&self) -> (res: Self)
        ensures
            res@ == self@,
            res.rest() == self.rest(),
    {
        proof {
            use_type_invariant(self);
        }
        ArrayChunks { chunks: self.chunks, front: self.front, back: self.back, rem: self.rem }
    }
}

/// Returns an iterator over `N` elements of the slice at a time, starting at the beginning of
/// the slice. The chunks do not overlap. If `N` does not divide the length of the slice, the last
/// up to `N - 1` elements are left out and can be retrieved from the iterator's `remainder`. `N`
/// must not be zero.
pub fn array_chunks<'a, T, const N: usize>(slice: &'a [T]) -> (res: ArrayChunks<'a, T, N>)
    requires
        N != 0,
    ensures
        res@ == all_chunks(slice@, N as nat),
        res.rest() == chunk_remainder(slice@, N as nat),
{
    ArrayChunks::new(slice)
}

/// The chunks and the remainder together make up the whole slice, and the remainder is shorter
/// than one chunk.
pub proof fn law_chunks_partition<T>(s: Seq<T>, n: nat)
    requires
        n > 0,
    ensures
        chunk_remainder(s, n).len() < n,
        chunk_remainder(s, n).len() == s.len() % n,
        (s.len() / n) * n + chunk_remainder(s, n).len() == s.len(),
        forall|k: int, j: int|
            0 <= k < s.len() / n && 0 <= j < n ==> #[trigger] all_chunks(s, n)[k][j] == s[k * n
                + j],
{
    lemma_fundamental_div_mod(s.len() as int, n as int);
    let q = s.len() / n;
    assert(q * n == n * q) by (nonlinear_arith);
    assert forall|k: int, j: int| 0 <= k < q && 0 <= j < n implies #[trigger] all_chunks(s, n)[k][j]
        == s[k * n + j] by {
        lemma_chunk_in_bounds(k, q as int, n as int, s.len() as int);
    }
}

/// The first `q` chunks of `n` elements of `s`, one after the other, are the first `q * n`
/// elements of `s`.
proof fn lemma_flatten_chunks<T>(s: Seq<T>, n: nat, q: nat)
    requires
        n > 0,
        q * n <= s.len(),
    ensures
        Seq::new(q, |k: int| window_at(s, k * n, n as int)).flatten() == s.subrange(0, q * n as int),
    decreases q,
{
    let c = Seq::new(q, |k: int| window_at(s, k * n, n as int));
    if q == 0 {
        assert(s.subrange(0, 0) =~= Seq::<T>::empty());
    } else {
        let p = (q - 1) as nat;
        assert((q - 1) * n == q * n - n) by (nonlinear_arith)
            requires
                q > 0,
        ;
        lemma_flatten_chunks(s, n, p);
        let prev = Seq::new(p, |k: int| window_at(s, k * n, n as int));
        assert(c =~= prev.push(window_at(s, (p * n) as int, n as int)));
        prev.lemma_flatten_push(window_at(s, (p * n) as int, n as int));
        assert(s.subrange(0, q * n as int) =~= s.subrange(0, p * n as int) + window_at(
            s,
            (p * n) as int,
            n as int,
        ));
    }
}

/// The chunks, one after the other, followed by the remainder, are the whole sequence again.
pub proof fn law_chunks_flatten<T>(s: Seq<T>, n: nat)
    requires
        n > 0,
    ensures
        all_chunks(s, n).flatten() + chunk_remainder(s, n) == s,
{
    let q = s.len() / n;
    lemma_fundamental_div_mod(s.len() as int, n as int);
    assert(q * n <= s.len()) by (nonlinear_arith)
        requires
            s.len() == n * q + (s.len() as int) % (n as int),
            (s.len() as int) % (n as int) >= 0,
    ;
    lemma_flatten_chunks(s, n, q);
    assert(all_chunks(s, n) =~= Seq::new(q, |k: int| window_at(s, k * n, n as int)));
    assert(s.subrange(0, q * n as int) + chunk_remainder(s, n) =~= s);
}

/// Consecutive windows overlap in all but one element.
pub proof fn law_windows_overlap<T>(s: Seq<T>, n: nat)
    ensures
        forall|k: int, j: int|
            0 <= k < all_windows(s, n).len() - 1 && 0 < j < n ==> #[trigger] all_windows(s, n)[k
                + 1][j - 1] == all_windows(s, n)[k][j],
{
}

/// Divides a slice into an array of its first `N` elements and the rest. `N` must not exceed the
/// slice's length.
#[must_use]
pub fn split_array_ref<T, const N: usize>(slice: &[T]) -> (res: (&[T; N], &[T]))
    requires
        N <= slice@.len(),
    ensures
        res.0@ == slice@.subrange(0, N as int),
        res.1@ == slice@.subrange(N as int, slice@.len() as int),
{
    let a = array_at::<T, N>(slice, 0);
    let b = slice_subrange(slice, N, slice.len());
    (a, b)
}

/// Divides a slice into the elements before its last `N` ones and an array of the last `N`. `N`
/// must not exceed the slice's length.
#[must_use]
pub fn rsplit_array_ref<T, const N: usize>(slice: &[T]) -> (res: (&[T], &[T; N]))
    requires
        N <= slice@.len(),
    ensures
        res.0@ == slice@.subrange(0, slice@.len() - N),
        res.1@ == slice@.subrange(slice@.len() - N, slice@.len() as int),
{
    let split = slice.len() - N;
    let a = slice_subrange(slice, 0, split);
    let b = array_at::<T, N>(slice, split);
    (a, b)
}

/// Divides a mutable slice into an array of its first `N` elements and the rest. `N` must not
/// exceed the slice's length.
#[must_use]
pub fn split_array_mut<T, const N: usize>(slice: &mut [T]) -> (res: (&mut [T; N], &mut [T]))
    requires
        N <= old(slice)@.len(),
    ensures
        res.0@ == old(slice)@.subrange(0, N as int),
        res.1@ == old(slice)@.subrange(N as int, old(slice)@.len() as int),
        final(slice)@ == final(res.0)@ + final(res.1)@,
{
    let (a, b) = slice.split_at_mut(N);
    let a = array_mut::<T, N>(a);
    (a, b)
}

/// Divides a mutable slice into the elements before its last `N` ones and an array of the last
/// `N`. `N` must not exceed the slice's length.
#[must_use]
pub fn rsplit_array_mut<T, const N: usize>(slice: &mut [T]) -> (res: (&mut [T], &mut [T; N]))
    requires
        N <= old(slice)@.len(),
    ensures
        res.0@ == old(slice)@.subrange(0, old(slice)@.len() - N),
        res.1@ == old(slice)@.subrange(old(slice)@.len() - N, old(slice)@.len() as int),
        final(slice)@ == final(res.0)@ + final(res.1)@,
{
    let split = slice.len() - N;
    let (a, b) = slice.split_at_mut(split);
    let b = array_mut::<T, N>(b);
    (a, b)
}

/// The whole chunks of a prefix of `s` whose length is a multiple of `n` are the first chunks of
/// `s`.
proof fn lemma_chunks_of_prefix<T>(s: Seq<T>, n: nat, q: nat)
    requires
        n > 0,
        q == s.len() / n,
    ensures
        q * n <= s.len(),
        s.subrange(0, q * n as int).len() % n == 0,
        all_chunks(s.subrange(0, q * n as int), n) == all_chunks(s, n),
{
    let p = s.subrange(0, q * n as int);
    lemma_fundamental_div_mod(s.len() as int, n as int);
    assert(q * n <= s.len()) by (nonlinear_arith)
        requires
            s.len() == n * q + (s.len() as int) % (n as int),
            (s.len() as int) % (n as int) >= 0,
    ;
    lemma_mod_multiples_basic(q as int, n as int);
    lemma_div_by_multiple(q as int, n as int);
    assert forall|k: int| 0 <= k < q implies #[trigger] window_at(p, k * n, n as int) == window_at(
        s,
        k * n,
        n as int,
    ) by {
        lemma_chunk_in_bounds(k, q as int, n as int, (q * n) as int);
        assert(window_at(p, k * n, n as int) =~= window_at(s, k * n, n as int));
    }
    assert(all_chunks(p, n) =~= all_chunks(s, n));
}

/// A sequence whose length is a multiple of `n` has no remainder after its chunks.
proof fn lemma_exact_remainder_empty<T>(s: Seq<T>, n: nat)
    requires
        n > 0,
        s.len() % n == 0,
    ensures
        chunk_remainder(s, n) == Seq::<T>::empty(),
{
    lemma_fundamental_div_mod(s.len() as int, n as int);
    assert((s.len() / n) * n == n * (s.len() / n)) by (nonlinear_arith);
    assert(chunk_remainder(s, n) =~= Seq::<T>::empty());
}

/// Views a slice whose length is a multiple of `N` as a slice of `N`-element arrays. `N` must not
/// be zero.
#[must_use]
pub fn as_chunks_unchecked<T, const N: usize>(slice: &[T]) -> (res: &[[T; N]])
    requires
        N != 0,
        slice@.len() % (N as nat) == 0,
    ensures
        array_views(res@) == all_chunks(slice@, N as nat),
{
    let (chunks, _) = std_as_chunks(slice);
    proof {
        lemma_exact_remainder_empty(slice@, N as nat);
    }
    chunks
}

/// Splits a slice into a slice of `N`-element arrays, starting at the beginning of the slice, and
/// a remainder with fewer than `N` elements. `N` must not be zero.
#[must_use]
pub fn as_chunks<T, const N: usize>(slice: &[T]) -> (res: (&[[T; N]], &[T]))
    requires
        N != 0,
    ensures
        array_views(res.0@) == all_chunks(slice@, N as nat),
        res.1@ == chunk_remainder(slice@, N as nat),
{
    let len = slice.len() / N;
    proof {
        lemma_chunks_of_prefix(slice@, N as nat, len as nat);
    }
    let (multiple_of_n, remainder) = slice.split_at(len * N);
    let array_slice = as_chunks_unchecked(multiple_of_n);
    (array_slice, remainder)
}

/// Views a mutable slice whose length is a multiple of `N` as a slice of `N`-element arrays. `N`
/// must not be zero.
#[must_use]
pub fn as_chunks_unchecked_mut<T, const N: usize>(slice: &mut [T]) -> (res: &mut [[T; N]])
    requires
        N != 0,
        old(slice)@.len() % (N as nat) == 0,
    ensures
        array_views(res@) == all_chunks(old(slice)@, N as nat),
        final(slice)@ == array_views(final(res)@).flatten(),
{
    let (chunks, rest) = std_as_chunks_mut(slice);
    proof {
        lemma_exact_remainder_empty(old(slice)@, N as nat);
        assert(rest@ =~= Seq::<T>::empty());
    }
    chunks
}

/// Splits a mutable slice into a slice of `N`-element arrays, starting at the beginning of the
/// slice, and a remainder with fewer than `N` elements. `N` must not be zero.
#[must_use]
pub fn as_chunks_mut<T, const N: usize>(slice: &mut [T]) -> (res: (&mut [[T; N]], &mut [T]))
    requires
        N != 0,
    ensures
        array_views(res.0@) == all_chunks(old(slice)@, N as nat),
        res.1@ == chunk_remainder(old(slice)@, N as nat),
        final(slice)@ == array_views(final(res.0)@).flatten() + final(res.1)@,
{
    let len = slice.len() / N;
    proof {
        lemma_chunks_of_prefix(old(slice)@, N as nat, len as nat);
    }
    let (multiple_of_n, remainder) = slice.split_at_mut(len * N);
    let array_slice = as_chunks_unchecked_mut(multiple_of_n);
    (array_slice, remainder)
}

/// An iterator over a mutable slice in non-overlapping chunks of `N` elements, starting at the
/// beginning of the slice. When `N` does not divide the length of the slice, the last up to
/// `N - 1` elements are not yielded; [`ArrayChunksMut::into_remainder`] returns them. Created by
/// [`array_chunks_mut`].
pub struct ArrayChunksMut<'a, T, const N: usize> {
    chunks: Option<&'a mut [[T; N]]>,
    rem: &'a mut [T],
}

impl<'a, T, const N: usize> View for ArrayChunksMut<'a, T, N> {
    type V = Seq<Seq<T>>;

    /// The chunks the iterator has yet to yield, front first.
    closed spec fn view(&self) -> Seq<Seq<T>> {
        match self.chunks {
            Some(c) => array_views(c@),
            None => Seq::empty(),
        }
    }
}

impl<'a, T, const N: usize> ArrayChunksMut<'a, T, N> {
    /// The elements after the last whole chunk.
    pub closed spec fn rest(&self) -> Seq<T> {
        self.rem@
    }

    /// The mutable borrow of the chunks the iterator has yet to yield; what is written through
    /// the yielded arrays and the ones left reaches the slice through it.
    pub closed spec fn chunk_ref(&self) -> Option<&'a mut [[T; N]]> {
        self.chunks
    }

    /// The mutable borrow of the elements after the last whole chunk.
    pub closed spec fn rem_ref(&self) -> &'a mut [T] {
        self.rem
    }

    fn new(slice: &'a mut [T]) -> (res: Self)
        requires
            N > 0,
        ensures
            res@ == all_chunks(old(slice)@, N as nat),
            res.rest() == chunk_remainder(old(slice)@, N as nat),
            res.chunks is Some,
            final(slice)@ == array_views(final(res.chunks.unwrap())@).flatten() + final(res.rem)@,
    {
        let (array_slice, rem) = as_chunks_mut(slice);
        Self { chunks: Some(array_slice), rem }
    }

    /// Returns the remainder of the original slice that is not going to be returned by the
    /// iterator. The returned slice has at most `N - 1` elements.
    #[must_use]
    pub fn into_remainder(self) -> (res: &'a mut [T])
        ensures
            res@ == self.rest(),
            final(res)@ == final(self.rem_ref())@,
            self.chunk_ref() is Some ==> array_views(final(self.chunk_ref().unwrap())@) == self@,
    {
        self.rem
    }

    /// Yields the next chunk.
    pub fn next(&mut self) -> (res: Option<&'a mut [T; N]>)
        ensures
            final(self).rest() == old(self).rest(),
            old(self)@.len() == 0 ==> res is None && final(self)@ == old(self)@,
            old(self)@.len() > 0 ==> (res matches Some(w) && (*w)@ == old(self)@[0] && final(
                self)@ == old(self)@.drop_first()),
            final(self).rem_ref() == old(self).rem_ref(),
            old(self).chunk_ref() is Some ==> final(self).chunk_ref() is Some,
            old(self).chunk_ref() is Some && old(self)@.len() == 0 ==> array_views(
                final(old(self).chunk_ref().unwrap())@,
            ) == array_views(final(final(self).chunk_ref().unwrap())@),
            old(self).chunk_ref() is Some && old(self)@.len() > 0 ==> array_views(
                final(old(self).chunk_ref().unwrap())@,
            ) == seq![final(res.unwrap())@] + array_views(
                final(final(self).chunk_ref().unwrap())@,
            ),
    {
        match self.chunks.take() {
            None => None,
            Some(chunks) => {
                if chunks.len() == 0 {
                    self.chunks = Some(chunks);
                    return None;
                }
                let (head, tail) = chunks.split_at_mut(1);
                self.chunks = Some(tail);
                assert(self@ =~= old(self)@.drop_first());
                head.first_mut()
            },
        }
    }

    /// The number of chunks left, as lower and upper bound.
    pub fn size_hint(&self) -> (res: (usize, Option<usize>))
        ensures
            res.0 == self@.len(),
            res.1 == Some(self@.len() as usize),
    {
        let n = match &self.chunks {
            Some(c) => c.len(),
            None => 0,
        };
        (n, Some(n))
    }

    /// The number of chunks left.
    pub fn count(self) -> (res: usize)
        ensures
            res == self@.len(),
            self.chunk_ref() is Some ==> array_views(final(self.chunk_ref().unwrap())@) == self@,
            final(self.rem_ref())@ == self.rest(),
    {
        match &self.chunks {
            Some(c) => c.len(),
            None => 0,
        }
    }

    /// Skips `n` chunks and yields the one after them; with fewer than `n + 1` chunks left it
    /// yields nothing and leaves none.
    pub fn nth(&mut self, n: usize) -> (res: Option<&'a mut [T; N]>)
        ensures
            final(self).rest() == old(self).rest(),
            old(self)@.len() <= n ==> res is None && final(self)@.len() == 0,
            old(self)@.len() > n ==> (res matches Some(w) && (*w)@ == old(self)@[n as int]
                && final(self)@ == old(self)@.subrange(n + 1, old(self)@.len() as int)),
            final(self).rem_ref() == old(self).rem_ref(),
            old(self).chunk_ref() is Some ==> final(self).chunk_ref() is Some,
            old(self).chunk_ref() is Some && old(self)@.len() <= n ==> array_views(final(old(self).chunk_ref().unwrap())@)
                == old(self)@ + array_views(final(final(self).chunk_ref().unwrap())@),
            old(self).chunk_ref() is Some && old(self)@.len() > n ==> array_views(final(old(self).chunk_ref().unwrap())@)
                == old(self)@.subrange(0, n as int) + seq![final(res.unwrap())@] + array_views(
                final(final(self).chunk_ref().unwrap())@,
            ),
    {
        match self.chunks.take() {
            None => None,
            Some(chunks) => {
                let len = chunks.len();
                if len <= n {
                    let (_, empty) = chunks.split_at_mut(len);
                    self.chunks = Some(empty);
                    return None;
                }
                let (_, rest) = chunks.split_at_mut(n);
                let (head, tail) = rest.split_at_mut(1);
                self.chunks = Some(tail);
                assert(self@ =~= old(self)@.subrange(n + 1, old(self)@.len() as int));
                head.first_mut()
            },
        }
    }

    /// The last chunk left, if any.
    pub fn last(self) -> (res: Option<&'a mut [T; N]>)
        ensures
            self@.len() == 0 ==> res is None,
            self@.len() > 0 ==> (res matches Some(w) && (*w)@ == self@.last()),
            self.chunk_ref() is Some && self@.len() == 0 ==> array_views(
                final(self.chunk_ref().unwrap())@,
            ) == self@,
            self.chunk_ref() is Some && self@.len() > 0 ==> array_views(
                final(self.chunk_ref().unwrap())@,
            ) == self@.drop_last().push(final(res.unwrap())@),
            final(self.rem_ref())@ == self.rest(),
    {
        match self.chunks {
            None => None,
            Some(chunks) => chunks.last_mut(),
        }
    }

    /// Yields the last chunk.
    pub fn next_back(&mut self) -> (res: Option<&'a mut [T; N]>)
        ensures
            final(self).rest() == old(self).rest(),
            old(self)@.len() == 0 ==> res is None && final(self)@ == old(self)@,
            old(self)@.len() > 0 ==> (res matches Some(w) && (*w)@ == old(self)@.last() && final(
                self)@ == old(self)@.drop_last()),
            final(self).rem_ref() == old(self).rem_ref(),
            old(self).chunk_ref() is Some ==> final(self).chunk_ref() is Some,
            old(self).chunk_ref() is Some && old(self)@.len() == 0 ==> array_views(final(old(self).chunk_ref().unwrap())@)
                == array_views(final(final(self).chunk_ref().unwrap())@),
            old(self).chunk_ref() is Some && old(self)@.len() > 0 ==> array_views(final(old(self).chunk_ref().unwrap())@)
                == array_views(final(final(self).chunk_ref().unwrap())@).push(final(res.unwrap())@),
    {
        match self.chunks.take() {
            None => None,
            Some(chunks) => {
                let len = chunks.len();
                if len == 0 {
                    self.chunks = Some(chunks);
                    return None;
                }
                let (head, tail) = chunks.split_at_mut(len - 1);
                self.chunks = Some(head);
                assert(self@ =~= old(self)@.drop_last());
                tail.first_mut()
            },
        }
    }

    /// Skips `n` chunks from the back and yields the one before them; with fewer than `n + 1`
    /// chunks left it yields nothing and leaves none.
    pub fn nth_back(&mut self, n: usize) -> (res: Option<&'a mut [T; N]>)
        ensures
            final(self).rest() == old(self).rest(),
            old(self)@.len() <= n ==> res is None && final(self)@.len() == 0,
            old(self)@.len() > n ==> (res matches Some(w) && (*w)@ == old(self)@[old(self)@.len()
                - 1 - n] && final(self)@ == old(self)@.subrange(0, old(self)@.len() - 1 - n)),
            final(self).rem_ref() == old(self).rem_ref(),
            old(self).chunk_ref() is Some ==> final(self).chunk_ref() is Some,
            old(self).chunk_ref() is Some && old(self)@.len() <= n ==> array_views(final(old(self).chunk_ref().unwrap())@)
                == old(self)@ + array_views(final(final(self).chunk_ref().unwrap())@),
            old(self).chunk_ref() is Some && old(self)@.len() > n ==> array_views(final(old(self).chunk_ref().unwrap())@)
                == array_views(final(final(self).chunk_ref().unwrap())@) + seq![final(res.unwrap())@] + old(self)@.subrange(
                old(self)@.len() - n,
                old(self)@.len() as int,
            ),
    {
        match self.chunks.take() {
            None => None,
            Some(chunks) => {
                let len = chunks.len();
                if len <= n {
                    let (_, empty) = chunks.split_at_mut(len);
                    self.chunks = Some(empty);
                    return None;
                }
                let (head, tail) = chunks.split_at_mut(len - 1 - n);
                self.chunks = Some(head);
                assert(self@ =~= old(self)@.subrange(0, old(self)@.len() - 1 - n));
                tail.first_mut()
            },
        }
    }
}

/// Returns an iterator over `N` elements of a mutable slice at a time, starting at the beginning
/// of the slice. The chunks do not overlap. If `N` does not divide the length of the slice, the
/// last up to `N - 1` elements are left out and can be retrieved from the iterator's
/// `into_remainder`. `N` must not be zero.
pub fn array_chunks_mut<'a, T, const N: usize>(slice: &'a mut [T]) -> (res: ArrayChunksMut<'a, T, N>)
    requires
        N != 0,
    ensures
        res@ == all_chunks(old(slice)@, N as nat),
        res.rest() == chunk_remainder(old(slice)@, N as nat),
        res.chunk_ref() is Some,
        final(slice)@ == array_views(final(res.chunk_ref().unwrap())@).flatten() + final(res.rem_ref())@,
{
    ArrayChunksMut::new(slice)
}

} // verus!
