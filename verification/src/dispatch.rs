use vstd::prelude::*;
use crate::MULTITHREAD_MODE_ACTIVATES_ON;
use crate::generate::generate_sequential;
use crate::generate::is_canonical_uuid_v4;
use crate::uses_parallel_strategy;

verus! {

/// What the dispatcher decided for a given count: the sequential
/// strategy has already produced its lines in generation order, while
/// the parallel strategy leaves the fan-out to the caller, who plans
/// it with [`plan_partition`] and runs one worker per share.
pub enum Dispatch {
    Sequential(Vec<String>),
    Parallel,
}

/// Choose the generation strategy for `uuid_count`: counts above
/// `MULTITHREAD_MODE_ACTIVATES_ON` are handed to the parallel
/// strategy, all others are generated sequentially on the spot.
pub fn run(uuid_count: u32) -> (d: Dispatch)
    ensures
        uses_parallel_strategy(uuid_count) <==> d is Parallel,
        d matches Dispatch::Sequential(lines) ==> {
            &&& lines@.len() == uuid_count
            &&& forall|i: int| 0 <= i < lines@.len()
                ==> is_canonical_uuid_v4(#[trigger] lines@[i]@)
        },
{
    if uuid_count > MULTITHREAD_MODE_ACTIVATES_ON {
        Dispatch::Parallel
    } else {
        Dispatch::Sequential(generate_sequential(uuid_count))
    }
}

/// Total of a sequence of per-worker counts.
pub open spec fn sum_u32(s: Seq<u32>) -> int
    decreases s.len(),
{
    if s.len() == 0 {
        0
    } else {
        s.first() + sum_u32(s.drop_first())
    }
}

/// Appending one count adds exactly that count to the total.
pub proof fn lemma_sum_push(s: Seq<u32>, x: u32)
    ensures
        sum_u32(s.push(x)) == sum_u32(s) + x,
    decreases s.len(),
{
    if s.len() == 0 {
        assert(s.push(x).first() == x);
        assert(s.push(x).drop_first() =~= Seq::<u32>::empty());
        assert(sum_u32(Seq::<u32>::empty()) == 0);
    } else {
        assert(s.push(x).first() == s.first());
        assert(s.push(x).drop_first() =~= s.drop_first().push(x));
        lemma_sum_push(s.drop_first(), x);
    }
}

/// When every worker emits exactly as many lines as its share of the
/// plan asks for, the lines of all workers taken together number
/// exactly the plan's total — so a plan that totals `count` yields
/// `count` output lines, however the workers' outputs interleave.
pub proof fn lemma_partition_output_total<A>(plan: Seq<u32>, outputs: Seq<Seq<A>>)
    requires
        outputs.len() == plan.len(),
        forall|i: int| 0 <= i < plan.len() ==> #[trigger] outputs[i].len() == plan[i],
    ensures
        outputs.flatten().len() == sum_u32(plan),
    decreases plan.len(),
{
    if plan.len() == 0 {
    } else {
        assert(outputs.flatten() == outputs.first().add(outputs.drop_first().flatten()));
        lemma_partition_output_total(plan.drop_first(), outputs.drop_first());
    }
}

/// How many workers the parallel strategy uses for `count` units with
/// `parallelism` hardware threads available: never more than either.
pub open spec fn num_workers(count: u32, parallelism: usize) -> int {
    vstd::math::min(parallelism as int, count as int)
}

/// The share assigned to worker `i` out of `n`: everyone gets the even
/// share `count / n`, and the last worker additionally takes the
/// indivisible remainder.
pub open spec fn worker_share(count: int, n: int, i: int) -> int {
    if i == n - 1 {
        count / n + count % n
    } else {
        count / n
    }
}

/// Partition `uuid_count` units of work over at most `parallelism`
/// workers. The shares total `uuid_count` exactly; all workers but the
/// last get the same even share, and no two shares differ by more than
/// `plan.len() - 1`. A count of zero yields an empty plan.
pub fn plan_partition(uuid_count: u32, parallelism: usize) -> (plan: Vec<u32>)
    requires
        1 <= parallelism,
    ensures
        plan@.len() == num_workers(uuid_count, parallelism),
        sum_u32(plan@) == uuid_count,
        forall|i: int| 0 <= i < plan@.len() ==> plan@[i]
            == worker_share(uuid_count as int, plan@.len() as int, i),
        forall|i: int, j: int| 0 <= i < plan@.len() && 0 <= j < plan@.len()
            ==> plan@[i] - plan@[j] <= plan@.len() - 1,
{
    let mut plan: Vec<u32> = Vec::new();
    if uuid_count == 0 {
        return plan;
    }
    let num_threads: u32 = if parallelism >= uuid_count as usize {
        uuid_count
    } else {
        parallelism as u32
    };
    let base: u32 = uuid_count / num_threads;
    let remainder: u32 = uuid_count % num_threads;
    proof {
        vstd::arithmetic::div_mod::lemma_fundamental_div_mod(
            uuid_count as int,
            num_threads as int,
        );
        assert(num_threads as int * base as int >= base as int) by (nonlinear_arith)
            requires
                num_threads >= 1,
                base >= 0,
        ;
        assert(uuid_count as int == num_threads as int * base as int + remainder as int);
        assert(base + remainder <= uuid_count);
    }
    let mut i: u32 = 0;
    while i < num_threads - 1
        invariant
            1 <= num_threads <= uuid_count,
            base == uuid_count as int / num_threads as int,
            remainder == uuid_count as int % num_threads as int,
            base + remainder <= uuid_count,
            i <= num_threads - 1,
            plan@.len() == i,
            sum_u32(plan@) == i * base,
            forall|k: int| 0 <= k < plan@.len() ==> plan@[k] == base,
        decreases num_threads - i,
    {
        proof {
            lemma_sum_push(plan@, base);
            assert((i + 1) as int * base as int == i as int * base as int + base as int)
                by (nonlinear_arith);
        }
        plan.push(base);
        i = i + 1;
    }
    proof {
        lemma_sum_push(plan@, (base + remainder) as u32);
        assert(num_threads as int * base as int
            == (num_threads - 1) as int * base as int + base as int) by (nonlinear_arith);
        vstd::arithmetic::div_mod::lemma_fundamental_div_mod(
            uuid_count as int,
            num_threads as int,
        );
    }
    plan.push(base + remainder);
    proof {
        assert(0 <= (uuid_count as int % num_threads as int) && (uuid_count as int
            % num_threads as int) < num_threads as int)
            by (nonlinear_arith)
            requires
                num_threads >= 1,
        ;
    }
    plan
}

} // verus!
