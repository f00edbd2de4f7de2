//! The exported operations of the call boundary.
//!
//! A [`Boundary`] holds the state one execution context sees: the diagnostic
//! store of the calling thread, the process-wide hook configuration, and the
//! registries owning the live objects of each kind. Every operation returns a
//! status code; a failing operation records its diagnostic and leaves every
//! object unchanged, so no handle can ever observe a half-done mutation.

use vstd::prelude::*;

use crate::diagnostics::DiagnosticStore;
use crate::handles::Block;
use crate::handles::LabelSet;
use crate::handles::Registry;
use crate::handles::TensorMap;
use crate::hook::spec_fault_response;
use crate::hook::spec_override_view;
use crate::hook::HookConfig;
use crate::status::Error;
use crate::status::EQS_INTERNAL_ERROR;
use crate::status::EQS_INVALID_PARAMETER_ERROR;
use crate::status::EQS_SUCCESS;
use crate::wrapper::outcome_wf;
use crate::wrapper::spec_diagnostic;
use crate::wrapper::spec_status;
use crate::wrapper::CallOutcome;

verus! {

/// Construction parameters for a label set are valid when both sizes are
/// non-negative and no entry is requested for a zero-dimensional set.
pub open spec fn labels_params_valid(size: i64, count: i64) -> bool {
    size >= 0 && count >= 0 && !(size == 0 && count > 0)
}

/// The state of the call boundary as one execution context sees it.
pub struct Boundary {
    /// The calling thread's diagnostic message store.
    pub diagnostics: DiagnosticStore,
    /// The process-wide secondary-channel configuration.
    pub hook: HookConfig,
    /// The live label sets.
    pub labels: Registry<LabelSet>,
    /// The live data blocks.
    pub blocks: Registry<Block>,
    /// The live tensor maps.
    pub tensors: Registry<TensorMap>,
}

impl Boundary {
    /// A fresh boundary: no live handle of any kind, no failure recorded,
    /// faults rendered to the secondary channel.
    pub fn new() -> (boundary: Self)
        ensures
            forall|h: u64| !boundary.labels.contains(h),
            forall|h: u64| !boundary.blocks.contains(h),
            forall|h: u64| !boundary.tensors.contains(h),
            boundary.labels.can_allocate(),
            boundary.blocks.can_allocate(),
            boundary.tensors.can_allocate(),
            boundary.diagnostics.last_message() is None,
            !boundary.hook.printing_disabled,
    {
        Boundary {
            diagnostics: DiagnosticStore::new(),
            hook: HookConfig::new(),
            labels: Registry::new(),
            blocks: Registry::new(),
            tensors: Registry::new(),
        }
    }

    /// The single translation point of the boundary, lifted to the whole
    /// state: only the diagnostic store can change, never an object.
    pub fn finish_call(&mut self, outcome: CallOutcome) -> (status: i32)
        requires
            outcome_wf(outcome),
        ensures
            status == spec_status(outcome),
            (status == EQS_SUCCESS) <==> (outcome is Completed),
            outcome is Completed ==> final(self).diagnostics == old(self).diagnostics,
            !(outcome is Completed) ==> {
                &&& final(self).diagnostics.last_message() == Some(spec_diagnostic(outcome))
                &&& spec_diagnostic(outcome).len() > 0
            },
            final(self).labels == old(self).labels,
            final(self).blocks == old(self).blocks,
            final(self).tensors == old(self).tensors,
            final(self).hook == old(self).hook,
    {
        self.diagnostics.finish_call(outcome)
    }

    /// Reports an explicit failure: records its diagnostic and hands back its
    /// non-zero status code, touching nothing else.
    fn fail(&mut self, error: Error) -> (status: i32)
        requires
            error.wf(),
        ensures
            status == error.spec_code(),
            status != EQS_SUCCESS,
            final(self).diagnostics.last_message() == Some(error.spec_message()),
            error.spec_message().len() > 0,
            final(self).labels == old(self).labels,
            final(self).blocks == old(self).blocks,
            final(self).tensors == old(self).tensors,
            final(self).hook == old(self).hook,
    {
        self.diagnostics.finish_call(CallOutcome::Failed(error))
    }

    /// The diagnostic of the most recent failure on this context; never
    /// fails, returning a non-empty placeholder before any failure.
    pub fn last_error(&self) -> (message: String)
        ensures
            match self.diagnostics.last_message() {
                Some(m) => message@ == m,
                None => message@.len() > 0,
            },
    {
        self.diagnostics.last_error()
    }

    /// The entry point of the wrapper's fault path: an internal fault was
    /// intercepted with the given payload, and the override value was read at
    /// this moment. Records the diagnostic and returns `EQS_INTERNAL_ERROR`
    /// together with the secondary-channel rendering decision.
    pub fn intercept_fault(&mut self, payload: Option<String>, override_value: &Option<String>) -> (r:
        (i32, bool))
        ensures
            ({
                let response = spec_fault_response(
                    old(self).hook,
                    spec_override_view(*override_value),
                    CallOutcome::Panicked(payload),
                );
                &&& r.0 == response.0
                &&& r.0 == EQS_INTERNAL_ERROR
                &&& r.1 == response.2
                &&& final(self).diagnostics.last_message() == Some(response.1)
                &&& response.1.len() > 0
            }),
            final(self).labels == old(self).labels,
            final(self).blocks == old(self).blocks,
            final(self).tensors == old(self).tensors,
            final(self).hook == old(self).hook,
    {
        let render = self.hook.should_render(override_value);
        let status = self.diagnostics.finish_call(CallOutcome::Panicked(payload));
        (status, render)
    }

    /// Configures the secondary diagnostic channel; the last configuration
    /// wins, and nothing else of the boundary changes.
    pub fn configure_panic_printing(&mut self, disabled: bool)
        ensures
            final(self).hook.printing_disabled == disabled,
            final(self).diagnostics == old(self).diagnostics,
            final(self).labels == old(self).labels,
            final(self).blocks == old(self).blocks,
            final(self).tensors == old(self).tensors,
    {
        self.hook = HookConfig { printing_disabled: disabled };
    }

    /// Stops rendering fault diagnostics to the secondary channel; the
    /// override read at fault time can still force rendering.
    pub fn disable_panic_printing(&mut self)
        ensures
            final(self).hook.printing_disabled,
            final(self).diagnostics == old(self).diagnostics,
            final(self).labels == old(self).labels,
            final(self).blocks == old(self).blocks,
            final(self).tensors == old(self).tensors,
    {
        self.configure_panic_printing(true);
    }

    /// Creates a label set with `size` dimensions and `count` entries and
    /// hands its fresh handle to the caller, who now owns it. On invalid
    /// parameters no handle is produced and nothing changes.
    pub fn labels_create(&mut self, size: i64, count: i64, out: &mut u64) -> (status: i32)
        requires
            old(self).labels.can_allocate(),
        ensures
            (status == EQS_SUCCESS) <==> labels_params_valid(size, count),
            final(self).blocks == old(self).blocks,
            final(self).tensors == old(self).tensors,
            final(self).hook == old(self).hook,
            labels_params_valid(size, count) ==> {
                &&& *final(out) != 0
                &&& !old(self).labels.contains(*final(out))
                &&& final(self).labels.contains(*final(out))
                &&& final(self).labels.at(*final(out)) == (LabelSet {
                    size: size as u64,
                    count: count as u64,
                })
                &&& forall|k: u64|
                    k != *final(out) ==> final(self).labels.contains(k) == old(self).labels.contains(k)
                &&& forall|k: u64|
                    k != *final(out) && old(self).labels.contains(k) ==> final(self).labels.at(k)
                        == old(self).labels.at(k)
                &&& final(self).diagnostics == old(self).diagnostics
            },
            !labels_params_valid(size, count) ==> {
                &&& status == EQS_INVALID_PARAMETER_ERROR
                &&& *final(out) == *old(out)
                &&& final(self).labels == old(self).labels
                &&& final(self).diagnostics.last_message() matches Some(m) && m.len() > 0
            },
    {
        if size < 0 || count < 0 || (size == 0 && count > 0) {
            proof {
                reveal_strlit(
                    "invalid parameter: labels need a non-negative size and count, and a zero-dimensional set has no entries",
                );
            }
            return self.fail(
                Error::InvalidParameter(
                    "invalid parameter: labels need a non-negative size and count, and a zero-dimensional set has no entries".to_owned(),
                ),
            );
        }
        let handle = self.labels.register(
            LabelSet { size: size as u64, count: count as u64 },
        );
        *out = handle;
        EQS_SUCCESS
    }

    /// Reads the entry count of a live label set. A null handle is a caller
    /// error; a non-null dead handle is a contract violation no operation
    /// checks.
    pub fn labels_count(&mut self, handle: u64, count: &mut u64) -> (status: i32)
        requires
            handle != 0 ==> old(self).labels.contains(handle),
        ensures
            (status == EQS_SUCCESS) <==> handle != 0,
            final(self).labels == old(self).labels,
            final(self).blocks == old(self).blocks,
            final(self).tensors == old(self).tensors,
            final(self).hook == old(self).hook,
            handle != 0 ==> {
                &&& *final(count) == old(self).labels.at(handle).count
                &&& final(self).diagnostics == old(self).diagnostics
            },
            handle == 0 ==> {
                &&& status == EQS_INVALID_PARAMETER_ERROR
                &&& *final(count) == *old(count)
                &&& final(self).diagnostics.last_message() matches Some(m) && m.len() > 0
            },
    {
        if handle == 0 {
            proof {
                reveal_strlit("invalid parameter: the labels handle is null");
            }
            return self.fail(
                Error::InvalidParameter("invalid parameter: the labels handle is null".to_owned()),
            );
        }
        *count = self.labels.get(handle).count;
        EQS_SUCCESS
    }

    /// Replaces the entry count of a live label set, in place. The new count
    /// must be non-negative, and a zero-dimensional set keeps zero entries.
    pub fn labels_resize(&mut self, handle: u64, new_count: i64) -> (status: i32)
        requires
            handle != 0 ==> old(self).labels.contains(handle),
        ensures
            (status == EQS_SUCCESS) <==> (handle != 0 && new_count >= 0 && (old(self).labels.at(
                handle,
            ).size > 0 || new_count == 0)),
            final(self).blocks == old(self).blocks,
            final(self).tensors == old(self).tensors,
            final(self).hook == old(self).hook,
            status == EQS_SUCCESS ==> {
                &&& final(self).labels.contains(handle)
                &&& final(self).labels.at(handle) == (LabelSet {
                    size: old(self).labels.at(handle).size,
                    count: new_count as u64,
                })
                &&& forall|k: u64|
                    k != handle ==> final(self).labels.contains(k) == old(self).labels.contains(k)
                &&& forall|k: u64|
                    k != handle && old(self).labels.contains(k) ==> final(self).labels.at(k) == old(self).labels.at(k)
                &&& final(self).diagnostics == old(self).diagnostics
            },
            status != EQS_SUCCESS ==> {
                &&& status == EQS_INVALID_PARAMETER_ERROR
                &&& final(self).labels == old(self).labels
                &&& final(self).diagnostics.last_message() matches Some(m) && m.len() > 0
            },
    {
        if handle == 0 {
            proof {
                reveal_strlit("invalid parameter: the handle of the labels to resize is null");
            }
            return self.fail(
                Error::InvalidParameter(
                    "invalid parameter: the handle of the labels to resize is null".to_owned(),
                ),
            );
        }
        let current = *self.labels.get(handle);
        if new_count < 0 || (current.size == 0 && new_count > 0) {
            proof {
                reveal_strlit(
                    "invalid parameter: the new entry count is out of range for this label set",
                );
            }
            return self.fail(
                Error::InvalidParameter(
                    "invalid parameter: the new entry count is out of range for this label set".to_owned(),
                ),
            );
        }
        self.labels.replace(handle, LabelSet { size: current.size, count: new_count as u64 });
        EQS_SUCCESS
    }

    /// Destroys a label set: a null handle is a no-op returning `EQS_SUCCESS`;
    /// a live handle gives its object back to the library, which frees it.
    /// Destroying the same non-null handle twice is a caller contract
    /// violation no operation checks.
    pub fn labels_destroy(&mut self, handle: u64) -> (status: i32)
        requires
            handle != 0 ==> old(self).labels.contains(handle),
        ensures
            status == EQS_SUCCESS,
            handle != 0 ==> !final(self).labels.contains(handle),
            forall|k: u64| k != handle ==> final(self).labels.contains(k) == old(self).labels.contains(k),
            forall|k: u64|
                k != handle && old(self).labels.contains(k) ==> final(self).labels.at(k) == old(self).labels.at(k),
            final(self).blocks == old(self).blocks,
            final(self).tensors == old(self).tensors,
            final(self).hook == old(self).hook,
            final(self).diagnostics == old(self).diagnostics,
    {
        if handle != 0 {
            self.labels.remove(handle);
        }
        EQS_SUCCESS
    }

    /// Creates a data block from two live label sets and hands its fresh
    /// handle to the caller. Ownership transfer: on success the `samples` and
    /// `properties` handles are moved into the block and must no longer be
    /// destroyed independently; they are released when the block is.
    pub fn block_create(&mut self, samples: u64, properties: u64, out: &mut u64) -> (status: i32)
        requires
            old(self).blocks.can_allocate(),
            samples != 0 ==> old(self).labels.contains(samples),
            properties != 0 ==> old(self).labels.contains(properties),
        ensures
            (status == EQS_SUCCESS) <==> block_params_valid(samples, properties),
            final(self).tensors == old(self).tensors,
            final(self).hook == old(self).hook,
            block_params_valid(samples, properties) ==> {
                &&& *final(out) != 0
                &&& !old(self).blocks.contains(*final(out))
                &&& final(self).blocks.contains(*final(out))
                &&& final(self).blocks.at(*final(out)) == (Block {
                    samples: old(self).labels.at(samples),
                    properties: old(self).labels.at(properties),
                })
                &&& !final(self).labels.contains(samples)
                &&& !final(self).labels.contains(properties)
                &&& forall|k: u64|
                    k != samples && k != properties ==> final(self).labels.contains(k) == old(self).labels.contains(k)
                &&& forall|k: u64|
                    k != samples && k != properties && old(self).labels.contains(k) ==> final(self).labels.at(k) == old(self).labels.at(k)
                &&& forall|k: u64|
                    k != *final(out) ==> final(self).blocks.contains(k) == old(self).blocks.contains(k)
                &&& forall|k: u64|
                    k != *final(out) && old(self).blocks.contains(k) ==> final(self).blocks.at(k)
                        == old(self).blocks.at(k)
                &&& final(self).diagnostics == old(self).diagnostics
            },
            !block_params_valid(samples, properties) ==> {
                &&& status == EQS_INVALID_PARAMETER_ERROR
                &&& *final(out) == *old(out)
                &&& final(self).labels == old(self).labels
                &&& final(self).blocks == old(self).blocks
                &&& final(self).diagnostics.last_message() matches Some(m) && m.len() > 0
            },
    {
        if samples == 0 || properties == 0 {
            proof {
                reveal_strlit("invalid parameter: a labels handle of the new block is null");
            }
            return self.fail(
                Error::InvalidParameter(
                    "invalid parameter: a labels handle of the new block is null".to_owned(),
                ),
            );
        }
        if samples == properties {
            proof {
                reveal_strlit(
                    "invalid parameter: the samples and properties handles must be distinct",
                );
            }
            return self.fail(
                Error::InvalidParameter(
                    "invalid parameter: the samples and properties handles must be distinct".to_owned(),
                ),
            );
        }
        let samples_labels = self.labels.take(samples);
        let properties_labels = self.labels.take(properties);
        let handle = self.blocks.register(
            Block { samples: samples_labels, properties: properties_labels },
        );
        *out = handle;
        EQS_SUCCESS
    }

    /// Destroys a data block: a null handle is a no-op returning
    /// `EQS_SUCCESS`; a live handle releases the block together with the
    /// label sets it owns. Destroying the same non-null handle twice is a
    /// caller contract violation no operation checks.
    pub fn block_destroy(&mut self, handle: u64) -> (status: i32)
        requires
            handle != 0 ==> old(self).blocks.contains(handle),
        ensures
            status == EQS_SUCCESS,
            handle != 0 ==> !final(self).blocks.contains(handle),
            forall|k: u64| k != handle ==> final(self).blocks.contains(k) == old(self).blocks.contains(k),
            forall|k: u64|
                k != handle && old(self).blocks.contains(k) ==> final(self).blocks.at(k) == old(self).blocks.at(k),
            final(self).labels == old(self).labels,
            final(self).tensors == old(self).tensors,
            final(self).hook == old(self).hook,
            final(self).diagnostics == old(self).diagnostics,
    {
        if handle != 0 {
            self.blocks.remove(handle);
        }
        EQS_SUCCESS
    }

    /// Creates a tensor map from a live keys label set and live, pairwise
    /// distinct block handles. Ownership transfer: on success the keys handle
    /// and every block handle are moved into the map and must no longer be
    /// destroyed independently; they are released when the map is.
    pub fn tensormap_create(&mut self, keys: u64, block_handles: &Vec<u64>, out: &mut u64) -> (status:
        i32)
        requires
            old(self).tensors.can_allocate(),
            keys != 0 ==> old(self).labels.contains(keys),
            forall|i: int|
                0 <= i < block_handles@.len() && block_handles@[i] != 0 ==> old(self).blocks.contains(#[trigger] block_handles@[i]),
        ensures
            (status == EQS_SUCCESS) <==> tensor_params_valid(keys, block_handles@),
            final(self).hook == old(self).hook,
            tensor_params_valid(keys, block_handles@) ==> {
                &&& *final(out) != 0
                &&& !old(self).tensors.contains(*final(out))
                &&& final(self).tensors.contains(*final(out))
                &&& final(self).tensors.at(*final(out)).keys == old(self).labels.at(keys)
                &&& final(self).tensors.at(*final(out)).blocks@.len() == block_handles@.len()
                &&& forall|i: int|
                    0 <= i < block_handles@.len() ==> final(self).tensors.at(
                        *final(out),
                    ).blocks@[i] == old(self).blocks.at(#[trigger] block_handles@[i])
                &&& !final(self).labels.contains(keys)
                &&& forall|k: u64|
                    k != keys ==> final(self).labels.contains(k) == old(self).labels.contains(k)
                &&& forall|k: u64|
                    k != keys && old(self).labels.contains(k) ==> final(self).labels.at(k) == old(self).labels.at(k)
                &&& forall|i: int|
                    0 <= i < block_handles@.len() ==> !final(self).blocks.contains(
                        #[trigger] block_handles@[i],
                    )
                &&& forall|k: u64|
                    !block_handles@.contains(k) ==> final(self).blocks.contains(k) == old(self).blocks.contains(k)
                &&& forall|k: u64|
                    !block_handles@.contains(k) && old(self).blocks.contains(k) ==> final(self).blocks.at(k) == old(self).blocks.at(k)
                &&& forall|k: u64|
                    k != *final(out) ==> final(self).tensors.contains(k) == old(self).tensors.contains(k)
                &&& forall|k: u64|
                    k != *final(out) && old(self).tensors.contains(k) ==> final(self).tensors.at(k)
                        == old(self).tensors.at(k)
                &&& final(self).diagnostics == old(self).diagnostics
            },
            !tensor_params_valid(keys, block_handles@) ==> {
                &&& status == EQS_INVALID_PARAMETER_ERROR
                &&& *final(out) == *old(out)
                &&& final(self).labels == old(self).labels
                &&& final(self).blocks == old(self).blocks
                &&& final(self).tensors == old(self).tensors
                &&& final(self).diagnostics.last_message() matches Some(m) && m.len() > 0
            },
    {
        if keys == 0 {
            proof {
                reveal_strlit("invalid parameter: the keys handle of the new tensor map is null");
            }
            return self.fail(
                Error::InvalidParameter(
                    "invalid parameter: the keys handle of the new tensor map is null".to_owned(),
                ),
            );
        }
        let total = block_handles.len();
        let mut i: usize = 0;
        while i < total
            invariant
                i <= total,
                total == block_handles@.len(),
                *self == *old(self),
                forall|t: int| 0 <= t < i ==> #[trigger] block_handles@[t] != 0,
                forall|t: int, u: int|
                    0 <= t < u < i ==> block_handles@[t] != block_handles@[u],
            decreases total - i,
        {
            if block_handles[i] == 0 {
                proof {
                    reveal_strlit(
                        "invalid parameter: a block handle of the new tensor map is null",
                    );
                }
                return self.fail(
                    Error::InvalidParameter(
                        "invalid parameter: a block handle of the new tensor map is null".to_owned(),
                    ),
                );
            }
            let mut j: usize = 0;
            while j < i
                invariant
                    j <= i < total,
                    total == block_handles@.len(),
                    *self == *old(self),
                    forall|t: int| 0 <= t < j ==> block_handles@[t] != block_handles@[i as int],
                decreases i - j,
            {
                if block_handles[j] == block_handles[i] {
                    proof {
                        reveal_strlit(
                            "invalid parameter: a block handle of the new tensor map is repeated",
                        );
                    }
                    return self.fail(
                        Error::InvalidParameter(
                            "invalid parameter: a block handle of the new tensor map is repeated".to_owned(),
                        ),
                    );
                }
                j += 1;
            }
            i += 1;
        }
        let mut moved: Vec<Block> = Vec::new();
        let mut i: usize = 0;
        while i < total
            invariant
                i <= total,
                total == block_handles@.len(),
                tensor_params_valid(keys, block_handles@),
                moved@.len() == i,
                forall|t: int|
                    0 <= t < i ==> moved@[t] == old(self).blocks.at(#[trigger] block_handles@[t]),
                forall|t: int|
                    0 <= t < i ==> !self.blocks.contains(#[trigger] block_handles@[t]),
                forall|t: int|
                    i <= t < total ==> self.blocks.contains(#[trigger] block_handles@[t])
                        && self.blocks.at(block_handles@[t]) == old(self).blocks.at(
                        block_handles@[t],
                    ),
                forall|k: u64|
                    !block_handles@.contains(k) ==> self.blocks.contains(k) == old(self).blocks.contains(k),
                forall|k: u64|
                    !block_handles@.contains(k) && old(self).blocks.contains(k)
                        ==> self.blocks.at(k) == old(self).blocks.at(k),
                self.labels == old(self).labels,
                self.tensors == old(self).tensors,
                self.diagnostics == old(self).diagnostics,
                self.hook == old(self).hook,
            decreases total - i,
        {
            proof {
                assert(block_handles@.contains(block_handles@[i as int]));
            }
            let block = self.blocks.take(block_handles[i]);
            moved.push(block);
            i += 1;
        }
        let keys_labels = self.labels.take(keys);
        let handle = self.tensors.register(TensorMap { keys: keys_labels, blocks: moved });
        *out = handle;
        EQS_SUCCESS
    }

    /// Reads how many blocks a live tensor map owns. A null handle is a
    /// caller error; a non-null dead handle is a contract violation no
    /// operation checks.
    pub fn tensormap_block_count(&mut self, handle: u64, count: &mut u64) -> (status: i32)
        requires
            handle != 0 ==> old(self).tensors.contains(handle),
        ensures
            (status == EQS_SUCCESS) <==> handle != 0,
            final(self).labels == old(self).labels,
            final(self).blocks == old(self).blocks,
            final(self).tensors == old(self).tensors,
            final(self).hook == old(self).hook,
            handle != 0 ==> {
                &&& *final(count) == old(self).tensors.at(handle).blocks@.len()
                &&& final(self).diagnostics == old(self).diagnostics
            },
            handle == 0 ==> {
                &&& status == EQS_INVALID_PARAMETER_ERROR
                &&& *final(count) == *old(count)
                &&& final(self).diagnostics.last_message() matches Some(m) && m.len() > 0
            },
    {
        if handle == 0 {
            proof {
                reveal_strlit("invalid parameter: the tensor map handle is null");
            }
            return self.fail(
                Error::InvalidParameter(
                    "invalid parameter: the tensor map handle is null".to_owned(),
                ),
            );
        }
        *count = self.tensors.get(handle).blocks.len() as u64;
        EQS_SUCCESS
    }

    /// Destroys a tensor map: a null handle is a no-op returning
    /// `EQS_SUCCESS`; a live handle releases the map together with the keys
    /// and every block that was moved into it — the caller destroys nothing
    /// else. Destroying the same non-null handle twice is a caller contract
    /// violation no operation checks.
    pub fn tensormap_destroy(&mut self, handle: u64) -> (status: i32)
        requires
            handle != 0 ==> old(self).tensors.contains(handle),
        ensures
            status == EQS_SUCCESS,
            handle != 0 ==> !final(self).tensors.contains(handle),
            forall|k: u64|
                k != handle ==> final(self).tensors.contains(k) == old(self).tensors.contains(k),
            forall|k: u64|
                k != handle && old(self).tensors.contains(k) ==> final(self).tensors.at(k) == old(self).tensors.at(k),
            final(self).labels == old(self).labels,
            final(self).blocks == old(self).blocks,
            final(self).hook == old(self).hook,
            final(self).diagnostics == old(self).diagnostics,
    {
        if handle != 0 {
            self.tensors.remove(handle);
        }
        EQS_SUCCESS
    }
}

/// Construction parameters for a data block are valid when both labels
/// handles are non-null and distinct.
pub open spec fn block_params_valid(samples: u64, properties: u64) -> bool {
    samples != 0 && properties != 0 && samples != properties
}

/// Construction parameters for a tensor map are valid when the keys handle is
/// non-null and the block handles are non-null and pairwise distinct.
pub open spec fn tensor_params_valid(keys: u64, block_handles: Seq<u64>) -> bool {
    &&& keys != 0
    &&& forall|i: int| 0 <= i < block_handles.len() ==> #[trigger] block_handles[i] != 0
    &&& forall|i: int, j: int|
        0 <= i < j < block_handles.len() ==> block_handles[i] != block_handles[j]
}

} // verus!
