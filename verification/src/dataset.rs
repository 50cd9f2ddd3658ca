//! Feature matrices, datasets with attachable fields, and boosters.

use vstd::prelude::*;

verus! {

/// Why a dataset or field operation was rejected.
#[derive(Clone, Copy, Debug, PartialEq, Eq, Structural)]
pub enum DataError {
    /// The feature matrix has no rows.
    EmptyMatrix,
    /// Not every row of the feature matrix has the width of the first row.
    RaggedRows,
    /// A field's values do not number one per row of the dataset.
    FieldLengthMismatch,
    /// A booster needs a label field on its training data.
    MissingLabel,
}

/// A row-major matrix of feature values, one row per sample.
pub struct MatBuf {
    rows: Vec<Vec<i64>>,
}

/// True when every row of `m` has the width of the first row.
pub open spec fn rectangular(m: Seq<Seq<i64>>) -> bool {
    forall|i: int| 0 <= i < m.len() ==> #[trigger] m[i].len() == m[0].len()
}

impl View for MatBuf {
    type V = Seq<Seq<i64>>;

    closed spec fn view(&self) -> Seq<Seq<i64>> {
        Seq::new(self.rows@.len(), |i: int| self.rows@[i]@)
    }
}

impl MatBuf {
    /// Wraps the given rows as a matrix; the shape is checked when a
    /// dataset is built from it.
    pub fn from_rows(rows: Vec<Vec<i64>>) -> (m: MatBuf)
        ensures
            m@.len() == rows@.len(),
            forall|i: int| 0 <= i < rows@.len() ==> m@[i] == #[trigger] rows@[i]@,
    {
        MatBuf { rows }
    }

    /// The number of rows (samples).
    pub fn num_rows(&self) -> (n: usize)
        ensures
            n == self@.len(),
    {
        self.rows.len()
    }

    /// Whether every row has the width of the first row.
    pub fn is_rectangular(&self) -> (b: bool)
        ensures
            b == rectangular(self@),
    {
        if self.rows.len() == 0 {
            return true;
        }
        let w: usize = self.rows[0].len();
        let mut i: usize = 0;
        while i < self.rows.len()
            invariant
                0 <= i <= self.rows@.len(),
                w == self@[0].len(),
                forall|j: int| 0 <= j < i ==> #[trigger] self@[j].len() == w,
            decreases self.rows@.len() - i,
        {
            if self.rows[i].len() != w {
                proof {
                    assert(self@[i as int].len() != self@[0].len());
                }
                return false;
            }
            i = i + 1;
        }
        true
    }
}

/// Training configuration. The pipeline exercises only the defaults, so no
/// recognized options are modelled.
pub struct Parameters {
    _private: (),
}

impl Parameters {
    /// The default configuration.
    pub fn new() -> Parameters {
        Parameters { _private: () }
    }
}

/// The named auxiliary data channels that a dataset can carry.
#[derive(Clone, Copy, Debug, PartialEq, Eq, Structural)]
pub enum Field {
    /// The training target, one value per row.
    Label,
    /// A sample weight, one value per row.
    Weight,
}

/// A feature matrix together with its attached fields.
pub struct Dataset {
    mat: MatBuf,
    labels: Option<Vec<i64>>,
    weights: Option<Vec<i64>>,
}

impl Dataset {
    /// The feature matrix, row by row.
    pub closed spec fn spec_mat(&self) -> Seq<Seq<i64>> {
        self.mat@
    }

    /// The number of rows (samples).
    pub open spec fn spec_num_rows(&self) -> int {
        self.spec_mat().len() as int
    }

    /// The values attached under `field`, if any.
    pub closed spec fn spec_field(&self, field: Field) -> Option<Seq<i64>> {
        match field {
            Field::Label => match self.labels {
                Some(l) => Some(l@),
                None => None,
            },
            Field::Weight => match self.weights {
                Some(w) => Some(w@),
                None => None,
            },
        }
    }

    /// Every dataset is non-empty and rectangular, and each attached field
    /// holds one value per row. Constructors establish this and methods
    /// preserve it.
    pub open spec fn wf(&self) -> bool {
        &&& self.spec_num_rows() > 0
        &&& rectangular(self.spec_mat())
        &&& (self.spec_field(Field::Label) matches Some(l) ==> l.len() == self.spec_num_rows())
        &&& (self.spec_field(Field::Weight) matches Some(w) ==> w.len() == self.spec_num_rows())
    }

    /// Builds a dataset from a feature matrix. A matrix with no rows or
    /// with rows of unequal width is rejected; otherwise the dataset holds
    /// exactly the matrix, with no fields attached yet.
    pub fn from_mat(mat: MatBuf, _parameters: &Parameters) -> (r: Result<Dataset, DataError>)
        ensures
            mat@.len() == 0 ==> r == Err::<Dataset, DataError>(DataError::EmptyMatrix),
            mat@.len() > 0 && !rectangular(mat@) ==> r == Err::<Dataset, DataError>(
                DataError::RaggedRows,
            ),
            mat@.len() > 0 && rectangular(mat@) ==> (r matches Ok(d) && {
                &&& d.spec_mat() == mat@
                &&& d.spec_field(Field::Label) is None
                &&& d.spec_field(Field::Weight) is None
                &&& d.wf()
            }),
    {
        if mat.num_rows() == 0 {
            return Err(DataError::EmptyMatrix);
        }
        if !mat.is_rectangular() {
            return Err(DataError::RaggedRows);
        }
        Ok(Dataset { mat, labels: None, weights: None })
    }

    /// The number of rows (samples).
    pub fn num_rows(&self) -> (n: usize)
        ensures
            n == self.spec_num_rows(),
    {
        self.mat.num_rows()
    }

    /// Whether values are attached under `field`.
    pub fn has_field(&self, field: Field) -> (b: bool)
        ensures
            b == (self.spec_field(field) is Some),
    {
        match field {
            Field::Label => self.labels.is_some(),
            Field::Weight => self.weights.is_some(),
        }
    }

    /// Attaches `values` under `field`, replacing what was there. The
    /// attachment fails, and the dataset is left unchanged, unless the
    /// values number exactly one per row.
    pub fn set_field(&mut self, field: Field, values: Vec<i64>) -> (r: Result<(), DataError>)
        ensures
            r is Ok <==> values@.len() == old(self).spec_num_rows(),
            r is Err ==> r == Err::<(), DataError>(DataError::FieldLengthMismatch)
                && *final(self) == *old(self),
            r is Ok ==> {
                &&& final(self).spec_mat() == old(self).spec_mat()
                &&& final(self).spec_field(field) == Some(values@)
                &&& forall|g: Field| g != field ==> #[trigger] final(self).spec_field(g)
                    == old(self).spec_field(g)
            },
            old(self).wf() ==> final(self).wf(),
    {
        if values.len() != self.mat.num_rows() {
            return Err(DataError::FieldLengthMismatch);
        }
        match field {
            Field::Label => {
                self.labels = Some(values);
            },
            Field::Weight => {
                self.weights = Some(values);
            },
        }
        Ok(())
    }
}

/// A trainable ensemble model. It keeps a shared handle on its training
/// data, so the dataset lives at least as long as the booster.
pub struct Booster {
    train: std::sync::Arc<Dataset>,
}

impl Booster {
    /// The training data the booster was built over.
    pub closed spec fn spec_train(&self) -> Dataset {
        *self.train
    }

    /// Builds a booster over `train`. Training needs a target, so the
    /// construction fails unless a label field is attached; the booster
    /// then references exactly the dataset it was given.
    pub fn new(train: std::sync::Arc<Dataset>, _parameters: &Parameters) -> (r: Result<
        Booster,
        DataError,
    >)
        ensures
            (*train).spec_field(Field::Label) is Some ==> (r matches Ok(b) && b.spec_train()
                == *train),
            (*train).spec_field(Field::Label) is None ==> r == Err::<Booster, DataError>(
                DataError::MissingLabel,
            ),
    {
        if !train.has_field(Field::Label) {
            return Err(DataError::MissingLabel);
        }
        Ok(Booster { train })
    }

    /// The number of rows of the training data.
    pub fn num_rows(&self) -> (n: usize)
        ensures
            n == self.spec_train().spec_num_rows(),
    {
        self.train.num_rows()
    }
}

} // verus!
