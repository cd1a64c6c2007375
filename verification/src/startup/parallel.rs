//! Ranks: which part of the model this process holds, and whether it serves.

use vstd::prelude::*;

use crate::startup::options::Options;

verus! {

/// How the model is split over processes, and this process's place in it.
#[derive(Clone, Copy, Debug, PartialEq, Eq, Structural)]
pub struct ParallelConfig {
    /// Tensor parallelism degree.
    pub tp_size: usize,
    /// Pipeline parallelism degree.
    pub pp_size: usize,
    /// Rank in tensor parallelism.
    pub tp_rank: usize,
    /// Rank in pipeline parallelism.
    pub pp_rank: usize,
    /// Data parallelism degree.
    pub dp_size: usize,
    /// Rank in data parallelism.
    pub dp_rank: usize,
}

impl ParallelConfig {
    /// The model's tensors are split.
    pub open spec fn splits_tensors(self) -> bool {
        self.tp_size > 1
    }

    /// The model's layers are split.
    pub open spec fn splits_layers(self) -> bool {
        self.pp_size > 1
    }

    /// The model's tensors are split.
    pub fn is_tp(&self) -> (split: bool)
        ensures
            split == self.splits_tensors(),
    {
        self.tp_size > 1
    }

    /// The model's layers are split.
    pub fn is_pp(&self) -> (split: bool)
        ensures
            split == self.splits_layers(),
    {
        self.pp_size > 1
    }
}

/// What the launcher of a distributed run told this process.
#[derive(Clone, Copy, Debug, PartialEq, Eq, Structural)]
pub struct Distributed {
    /// Rank in tensor parallelism.
    pub tp_rank: usize,
    /// Rank in pipeline parallelism.
    pub pp_rank: usize,
    /// Rank in data parallelism.
    pub dp_rank: usize,
    /// The accelerator meant for this process.
    pub device_id: i32,
    /// This process is the only one of the run.
    pub single: bool,
    /// The place of this process, with the degrees of parallelism.
    pub parallel: ParallelConfig,
}

impl Distributed {
    /// The place of this process is that of its ranks.
    pub open spec fn coherent(self) -> bool {
        &&& self.parallel.tp_rank == self.tp_rank
        &&& self.parallel.pp_rank == self.pp_rank
        &&& self.parallel.dp_rank == self.dp_rank
    }
}

/// More than one process is asked for.
pub open spec fn asks_for_many<S>(options: Options<S>) -> bool {
    options.tp > 1 || options.pp > 1 || options.dp > 1
}

/// The place of this process: as the launcher told it, or else as the command
/// line says, in the first replica.
pub open spec fn parallel_of<S>(
    options: Options<S>,
    distributed: Option<Distributed>,
) -> ParallelConfig {
    match distributed {
        Some(d) => d.parallel,
        None => ParallelConfig {
            tp_size: options.tp,
            pp_size: options.pp,
            tp_rank: options.tp_rank,
            pp_rank: options.pp_rank,
            dp_size: options.dp,
            dp_rank: 0,
        },
    }
}

/// The rank of the last of `size` pipeline stages, which produces the output.
pub open spec fn last_stage(size: usize) -> int {
    if size == 0 {
        0
    } else {
        size - 1
    }
}

/// This process answers requests: it is the first rank of the last pipeline
/// stage.
pub open spec fn primary<S>(options: Options<S>, distributed: Option<Distributed>) -> bool {
    match distributed {
        Some(d) => d.tp_rank == 0 && d.pp_rank == last_stage(options.pp),
        None => options.tp_rank == 0 && options.pp_rank == last_stage(options.pp),
    }
}

/// The port of this process: each replica has its own, counted from the port
/// on the command line.
pub open spec fn port_of<S>(options: Options<S>, distributed: Option<Distributed>) -> int {
    match distributed {
        Some(d) => options.port + d.dp_rank,
        None => options.port as int,
    }
}

/// More than one process is asked for.
pub fn wants_many(options: &Options<String>) -> (many: bool)
    ensures
        many == asks_for_many(*options),
{
    options.tp > 1 || options.pp > 1 || options.dp > 1
}

/// The place of this process among the others.
pub fn parallel_config(
    options: &Options<String>,
    distributed: &Option<Distributed>,
) -> (parallel: ParallelConfig)
    ensures
        parallel == parallel_of(*options, *distributed),
{
    match distributed {
        Some(d) => d.parallel,
        None => ParallelConfig {
            tp_size: options.tp,
            pp_size: options.pp,
            tp_rank: options.tp_rank,
            pp_rank: options.pp_rank,
            dp_size: options.dp,
            dp_rank: 0,
        },
    }
}

/// Whether this process answers requests.
pub fn is_primary(options: &Options<String>, distributed: &Option<Distributed>) -> (serves: bool)
    ensures
        serves == primary(*options, *distributed),
{
    let last: usize = if options.pp == 0 {
        0
    } else {
        options.pp - 1
    };
    match distributed {
        Some(d) => d.tp_rank == 0 && d.pp_rank == last,
        None => options.tp_rank == 0 && options.pp_rank == last,
    }
}

/// The port that this process serves on, or `None` where there is no such
/// port.
pub fn serve_port(options: &Options<String>, distributed: &Option<Distributed>) -> (port: Option<
    u16,
>)
    ensures
        port is Some <==> port_of(*options, *distributed) <= u16::MAX,
        port matches Some(p) ==> p == port_of(*options, *distributed),
{
    match distributed {
        Some(d) => {
            if d.dp_rank <= 65535 {
                options.port.checked_add(d.dp_rank as u16)
            } else {
                None
            }
        },
        None => Some(options.port),
    }
}

/// In every replica exactly one process answers requests: of all tensor and
/// pipeline ranks, rank 0 of the last stage and no other.
pub proof fn one_primary_in_a_replica<S>(options: Options<S>, distributed: Distributed)
    requires
        options.tp >= 1,
        options.pp >= 1,
    ensures
        primary(
            options,
            Some(
                Distributed { tp_rank: 0, pp_rank: (options.pp - 1) as usize, ..distributed },
            ),
        ),
        primary(options, Some(distributed)) ==> distributed.tp_rank == 0 && distributed.pp_rank
            == options.pp - 1,
        primary(options, None) <==> options.tp_rank == 0 && options.pp_rank == options.pp - 1,
{
}

/// A process that is not split and holds rank 0 answers requests.
pub proof fn a_lone_process_is_primary<S>(options: Options<S>)
    requires
        options.pp <= 1,
        options.tp_rank == 0,
        options.pp_rank == 0,
    ensures
        primary(options, None),
{
}

/// Replicas have ports of their own: two that differ in rank differ in port. The
/// first has the port of the command line.
pub proof fn replicas_have_their_own_ports<S>(options: Options<S>, a: Distributed, b: Distributed)
    requires
        a.dp_rank != b.dp_rank,
    ensures
        port_of(options, Some(a)) != port_of(options, Some(b)),
        a.dp_rank == 0 ==> port_of(options, Some(a)) == options.port,
{
}

/// More than one process is asked for exactly when the degrees, none of them
/// zero, multiply to more than one.
pub proof fn many_is_more_than_one<S>(options: Options<S>)
    requires
        options.tp >= 1,
        options.pp >= 1,
        options.dp >= 1,
    ensures
        asks_for_many(options) <==> options.tp * options.pp * options.dp > 1,
{
    let (t, p, d) = (options.tp as int, options.pp as int, options.dp as int);
    if t == 1 && p == 1 && d == 1 {
        assert(t * p * d == 1) by (nonlinear_arith)
            requires
                t == 1,
                p == 1,
                d == 1,
        ;
    } else {
        assert(t * p * d > 1) by (nonlinear_arith)
            requires
                t >= 1,
                p >= 1,
                d >= 1,
                t > 1 || p > 1 || d > 1,
        ;
    }
}

/// The ports of two replicas are as far apart as their ranks, and the first
/// replica, like a process without a launcher, has the port of the command line.
pub proof fn ports_follow_the_replicas<S>(options: Options<S>, a: Distributed, b: Distributed)
    ensures
        port_of(options, Some(a)) - port_of(options, Some(b)) == a.dp_rank - b.dp_rank,
        a.dp_rank == 0 ==> port_of(options, Some(a)) == options.port,
        port_of(options, None) == options.port,
{
}

/// A process knows its place either way: the fields of the command line without
/// a launcher, the launcher's place with one.
pub proof fn place_has_one_source<S>(options: Options<S>, distributed: Distributed)
    ensures
        parallel_of(options, Some(distributed)) == distributed.parallel,
        parallel_of(options, None).tp_size == options.tp,
        parallel_of(options, None).pp_size == options.pp,
        parallel_of(options, None).tp_rank == options.tp_rank,
        parallel_of(options, None).pp_rank == options.pp_rank,
        parallel_of(options, None).dp_size == options.dp,
        parallel_of(options, None).dp_rank == 0,
{
}

} // verus!
