//! Counts of the files, lines and characters that a documentation run added or
//! updated, and how many of them the user accepted.
use vstd::prelude::*;

verus! {

#[non_exhaustive]
#[derive(Clone, PartialEq, Debug)]
pub struct DocMetrics {
    pub accepted_number_of_add_files: Option<i64>,
    pub total_number_of_add_files: Option<i64>,
    pub accepted_number_of_update_files: Option<i64>,
    pub total_number_of_update_files: Option<i64>,
    pub accepted_number_of_add_lines: Option<i64>,
    pub total_number_of_add_lines: Option<i64>,
    pub accepted_number_of_update_lines: Option<i64>,
    pub total_number_of_update_lines: Option<i64>,
    pub characters_added_accepted: i32,
    pub characters_added_total: i32,
    pub characters_updated_accepted: i32,
    pub characters_updated_total: i32,
}

impl DocMetrics {
    pub fn accepted_number_of_add_files(&self) -> (r: Option<i64>)
        ensures
            r == self.accepted_number_of_add_files,
    {
        self.accepted_number_of_add_files
    }

    pub fn total_number_of_add_files(&self) -> (r: Option<i64>)
        ensures
            r == self.total_number_of_add_files,
    {
        self.total_number_of_add_files
    }

    pub fn accepted_number_of_update_files(&self) -> (r: Option<i64>)
        ensures
            r == self.accepted_number_of_update_files,
    {
        self.accepted_number_of_update_files
    }

    pub fn total_number_of_update_files(&self) -> (r: Option<i64>)
        ensures
            r == self.total_number_of_update_files,
    {
        self.total_number_of_update_files
    }

    pub fn accepted_number_of_add_lines(&self) -> (r: Option<i64>)
        ensures
            r == self.accepted_number_of_add_lines,
    {
        self.accepted_number_of_add_lines
    }

    pub fn total_number_of_add_lines(&self) -> (r: Option<i64>)
        ensures
            r == self.total_number_of_add_lines,
    {
        self.total_number_of_add_lines
    }

    pub fn accepted_number_of_update_lines(&self) -> (r: Option<i64>)
        ensures
            r == self.accepted_number_of_update_lines,
    {
        self.accepted_number_of_update_lines
    }

    pub fn total_number_of_update_lines(&self) -> (r: Option<i64>)
        ensures
            r == self.total_number_of_update_lines,
    {
        self.total_number_of_update_lines
    }

    pub fn characters_added_accepted(&self) -> (r: i32)
        ensures
            r == self.characters_added_accepted,
    {
        self.characters_added_accepted
    }

    pub fn characters_added_total(&self) -> (r: i32)
        ensures
            r == self.characters_added_total,
    {
        self.characters_added_total
    }

    pub fn characters_updated_accepted(&self) -> (r: i32)
        ensures
            r == self.characters_updated_accepted,
    {
        self.characters_updated_accepted
    }

    pub fn characters_updated_total(&self) -> (r: i32)
        ensures
            r == self.characters_updated_total,
    {
        self.characters_updated_total
    }

    /// A builder with every count unset.
    pub fn builder() -> (r: DocMetricsBuilder)
        ensures
            r == DocMetricsBuilder::empty(),
    {
        DocMetricsBuilder::default()
    }
}

/// Builds a [`DocMetrics`]; a character count left unset builds as zero.
#[non_exhaustive]
#[derive(Clone, PartialEq, Debug)]
pub struct DocMetricsBuilder {
    pub accepted_number_of_add_files: Option<i64>,
    pub total_number_of_add_files: Option<i64>,
    pub accepted_number_of_update_files: Option<i64>,
    pub total_number_of_update_files: Option<i64>,
    pub accepted_number_of_add_lines: Option<i64>,
    pub total_number_of_add_lines: Option<i64>,
    pub accepted_number_of_update_lines: Option<i64>,
    pub total_number_of_update_lines: Option<i64>,
    pub characters_added_accepted: Option<i32>,
    pub characters_added_total: Option<i32>,
    pub characters_updated_accepted: Option<i32>,
    pub characters_updated_total: Option<i32>,
}

impl DocMetricsBuilder {
    pub open spec fn empty() -> Self {
        DocMetricsBuilder {
            accepted_number_of_add_files: None,
            total_number_of_add_files: None,
            accepted_number_of_update_files: None,
            total_number_of_update_files: None,
            accepted_number_of_add_lines: None,
            total_number_of_add_lines: None,
            accepted_number_of_update_lines: None,
            total_number_of_update_lines: None,
            characters_added_accepted: None,
            characters_added_total: None,
            characters_updated_accepted: None,
            characters_updated_total: None,
        }
    }

    pub fn accepted_number_of_add_files(self, input: i64) -> (r: Self)
        ensures
            r == (Self { accepted_number_of_add_files: Some(input), ..self }),
    {
        Self { accepted_number_of_add_files: Some(input), ..self }
    }

    pub fn set_accepted_number_of_add_files(self, input: Option<i64>) -> (r: Self)
        ensures
            r == (Self { accepted_number_of_add_files: input, ..self }),
    {
        Self { accepted_number_of_add_files: input, ..self }
    }

    pub fn get_accepted_number_of_add_files(&self) -> (r: &Option<i64>)
        ensures
            *r == self.accepted_number_of_add_files,
    {
        &self.accepted_number_of_add_files
    }

    pub fn total_number_of_add_files(self, input: i64) -> (r: Self)
        ensures
            r == (Self { total_number_of_add_files: Some(input), ..self }),
    {
        Self { total_number_of_add_files: Some(input), ..self }
    }

    pub fn set_total_number_of_add_files(self, input: Option<i64>) -> (r: Self)
        ensures
            r == (Self { total_number_of_add_files: input, ..self }),
    {
        Self { total_number_of_add_files: input, ..self }
    }

    pub fn get_total_number_of_add_files(&self) -> (r: &Option<i64>)
        ensures
            *r == self.total_number_of_add_files,
    {
        &self.total_number_of_add_files
    }

    pub fn accepted_number_of_update_files(self, input: i64) -> (r: Self)
        ensures
            r == (Self { accepted_number_of_update_files: Some(input), ..self }),
    {
        Self { accepted_number_of_update_files: Some(input), ..self }
    }

    pub fn set_accepted_number_of_update_files(self, input: Option<i64>) -> (r: Self)
        ensures
            r == (Self { accepted_number_of_update_files: input, ..self }),
    {
        Self { accepted_number_of_update_files: input, ..self }
    }

    pub fn get_accepted_number_of_update_files(&self) -> (r: &Option<i64>)
        ensures
            *r == self.accepted_number_of_update_files,
    {
        &self.accepted_number_of_update_files
    }

    pub fn total_number_of_update_files(self, input: i64) -> (r: Self)
        ensures
            r == (Self { total_number_of_update_files: Some(input), ..self }),
    {
        Self { total_number_of_update_files: Some(input), ..self }
    }

    pub fn set_total_number_of_update_files(self, input: Option<i64>) -> (r: Self)
        ensures
            r == (Self { total_number_of_update_files: input, ..self }),
    {
        Self { total_number_of_update_files: input, ..self }
    }

    pub fn get_total_number_of_update_files(&self) -> (r: &Option<i64>)
        ensures
            *r == self.total_number_of_update_files,
    {
        &self.total_number_of_update_files
    }

    pub fn accepted_number_of_add_lines(self, input: i64) -> (r: Self)
        ensures
            r == (Self { accepted_number_of_add_lines: Some(input), ..self }),
    {
        Self { accepted_number_of_add_lines: Some(input), ..self }
    }

    pub fn set_accepted_number_of_add_lines(self, input: Option<i64>) -> (r: Self)
        ensures
            r == (Self { accepted_number_of_add_lines: input, ..self }),
    {
        Self { accepted_number_of_add_lines: input, ..self }
    }

    pub fn get_accepted_number_of_add_lines(&self) -> (r: &Option<i64>)
        ensures
            *r == self.accepted_number_of_add_lines,
    {
        &self.accepted_number_of_add_lines
    }

    pub fn total_number_of_add_lines(self, input: i64) -> (r: Self)
        ensures
            r == (Self { total_number_of_add_lines: Some(input), ..self }),
    {
        Self { total_number_of_add_lines: Some(input), ..self }
    }

    pub fn set_total_number_of_add_lines(self, input: Option<i64>) -> (r: Self)
        ensures
            r == (Self { total_number_of_add_lines: input, ..self }),
    {
        Self { total_number_of_add_lines: input, ..self }
    }

    pub fn get_total_number_of_add_lines(&self) -> (r: &Option<i64>)
        ensures
            *r == self.total_number_of_add_lines,
    {
        &self.total_number_of_add_lines
    }

    pub fn accepted_number_of_update_lines(self, input: i64) -> (r: Self)
        ensures
            r == (Self { accepted_number_of_update_lines: Some(input), ..self }),
    {
        Self { accepted_number_of_update_lines: Some(input), ..self }
    }

    pub fn set_accepted_number_of_update_lines(self, input: Option<i64>) -> (r: Self)
        ensures
            r == (Self { accepted_number_of_update_lines: input, ..self }),
    {
        Self { accepted_number_of_update_lines: input, ..self }
    }

    pub fn get_accepted_number_of_update_lines(&self) -> (r: &Option<i64>)
        ensures
            *r == self.accepted_number_of_update_lines,
    {
        &self.accepted_number_of_update_lines
    }

    pub fn total_number_of_update_lines(self, input: i64) -> (r: Self)
        ensures
            r == (Self { total_number_of_update_lines: Some(input), ..self }),
    {
        Self { total_number_of_update_lines: Some(input), ..self }
    }

    pub fn set_total_number_of_update_lines(self, input: Option<i64>) -> (r: Self)
        ensures
            r == (Self { total_number_of_update_lines: input, ..self }),
    {
        Self { total_number_of_update_lines: input, ..self }
    }

    pub fn get_total_number_of_update_lines(&self) -> (r: &Option<i64>)
        ensures
            *r == self.total_number_of_update_lines,
    {
        &self.total_number_of_update_lines
    }

    pub fn characters_added_accepted(self, input: i32) -> (r: Self)
        ensures
            r == (Self { characters_added_accepted: Some(input), ..self }),
    {
        Self { characters_added_accepted: Some(input), ..self }
    }

    pub fn set_characters_added_accepted(self, input: Option<i32>) -> (r: Self)
        ensures
            r == (Self { characters_added_accepted: input, ..self }),
    {
        Self { characters_added_accepted: input, ..self }
    }

    pub fn get_characters_added_accepted(&self) -> (r: &Option<i32>)
        ensures
            *r == self.characters_added_accepted,
    {
        &self.characters_added_accepted
    }

    pub fn characters_added_total(self, input: i32) -> (r: Self)
        ensures
            r == (Self { characters_added_total: Some(input), ..self }),
    {
        Self { characters_added_total: Some(input), ..self }
    }

    pub fn set_characters_added_total(self, input: Option<i32>) -> (r: Self)
        ensures
            r == (Self { characters_added_total: input, ..self }),
    {
        Self { characters_added_total: input, ..self }
    }

    pub fn get_characters_added_total(&self) -> (r: &Option<i32>)
        ensures
            *r == self.characters_added_total,
    {
        &self.characters_added_total
    }

    pub fn characters_updated_accepted(self, input: i32) -> (r: Self)
        ensures
            r == (Self { characters_updated_accepted: Some(input), ..self }),
    {
        Self { characters_updated_accepted: Some(input), ..self }
    }

    pub fn set_characters_updated_accepted(self, input: Option<i32>) -> (r: Self)
        ensures
            r == (Self { characters_updated_accepted: input, ..self }),
    {
        Self { characters_updated_accepted: input, ..self }
    }

    pub fn get_characters_updated_accepted(&self) -> (r: &Option<i32>)
        ensures
            *r == self.characters_updated_accepted,
    {
        &self.characters_updated_accepted
    }

    pub fn characters_updated_total(self, input: i32) -> (r: Self)
        ensures
            r == (Self { characters_updated_total: Some(input), ..self }),
    {
        Self { characters_updated_total: Some(input), ..self }
    }

    pub fn set_characters_updated_total(self, input: Option<i32>) -> (r: Self)
        ensures
            r == (Self { characters_updated_total: input, ..self }),
    {
        Self { characters_updated_total: input, ..self }
    }

    pub fn get_characters_updated_total(&self) -> (r: &Option<i32>)
        ensures
            *r == self.characters_updated_total,
    {
        &self.characters_updated_total
    }

    /// The metrics with the counts set so far; unset character counts are zero.
    pub fn build(self) -> (r: DocMetrics)
        ensures
            r.accepted_number_of_add_files == self.accepted_number_of_add_files,
            r.total_number_of_add_files == self.total_number_of_add_files,
            r.accepted_number_of_update_files == self.accepted_number_of_update_files,
            r.total_number_of_update_files == self.total_number_of_update_files,
            r.accepted_number_of_add_lines == self.accepted_number_of_add_lines,
            r.total_number_of_add_lines == self.total_number_of_add_lines,
            r.accepted_number_of_update_lines == self.accepted_number_of_update_lines,
            r.total_number_of_update_lines == self.total_number_of_update_lines,
            r.characters_added_accepted == match self.characters_added_accepted {
                Some(v) => v,
                None => 0,
            },
            r.characters_added_total == match self.characters_added_total {
                Some(v) => v,
                None => 0,
            },
            r.characters_updated_accepted == match self.characters_updated_accepted {
                Some(v) => v,
                None => 0,
            },
            r.characters_updated_total == match self.characters_updated_total {
                Some(v) => v,
                None => 0,
            },
    {
        DocMetrics {
            accepted_number_of_add_files: self.accepted_number_of_add_files,
            total_number_of_add_files: self.total_number_of_add_files,
            accepted_number_of_update_files: self.accepted_number_of_update_files,
            total_number_of_update_files: self.total_number_of_update_files,
            accepted_number_of_add_lines: self.accepted_number_of_add_lines,
            total_number_of_add_lines: self.total_number_of_add_lines,
            accepted_number_of_update_lines: self.accepted_number_of_update_lines,
            total_number_of_update_lines: self.total_number_of_update_lines,
            characters_added_accepted: match self.characters_added_accepted {
                Some(v) => v,
                None => 0,
            },
            characters_added_total: match self.characters_added_total {
                Some(v) => v,
                None => 0,
            },
            characters_updated_accepted: match self.characters_updated_accepted {
                Some(v) => v,
                None => 0,
            },
            characters_updated_total: match self.characters_updated_total {
                Some(v) => v,
                None => 0,
            },
        }
    }
}

impl Default for DocMetricsBuilder {
    fn default() -> (r: Self)
        ensures
            r == Self::empty(),
    {
        DocMetricsBuilder {
            accepted_number_of_add_files: None,
            total_number_of_add_files: None,
            accepted_number_of_update_files: None,
            total_number_of_update_files: None,
            accepted_number_of_add_lines: None,
            total_number_of_add_lines: None,
            accepted_number_of_update_lines: None,
            total_number_of_update_lines: None,
            characters_added_accepted: None,
            characters_added_total: None,
            characters_updated_accepted: None,
            characters_updated_total: None,
        }
    }
}

} // verus!
