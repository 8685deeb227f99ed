//! The plain simulator build configuration: a thinner sibling of the
//! crate-level [`Build`](crate::Build) without the accessor generator,
//! used when a design is compiled for simulation alone.

use vstd::prelude::*;
use vstd::string::StringExecFns;
use crate::{sp_join, path_join, lemma_vec_push_deep_view, push_string, sp_dash_wno};

verus! {

/// The configuration of one plain simulator run.
pub struct Build {
    virtual_top: Option<String>,
    top: Option<String>,
    clock: Option<String>,
    reset: Option<String>,
    dpi: bool,
    warnings: Vec<String>,
    verilog_files: Vec<String>,
    out_dir: Option<String>,
    handlebars_dir: Option<String>,
    bin: Option<String>,
}

/// The mathematical model of a plain simulator configuration.
pub struct BuildView {
    pub virtual_top: Option<Seq<char>>,
    pub top: Option<Seq<char>>,
    pub clock: Option<Seq<char>>,
    pub reset: Option<Seq<char>>,
    pub dpi: bool,
    pub warnings: Seq<Seq<char>>,
    pub verilog_files: Seq<Seq<char>>,
    pub out_dir: Option<Seq<char>>,
    pub handlebars_dir: Option<Seq<char>>,
    pub bin: Option<Seq<char>>,
}

/// The simulator invocation for a plain configuration.
pub open spec fn sp_verilator_args(b: BuildView) -> Seq<Seq<char>> {
    seq!["--cc"@, "-Mdir"@, b.out_dir->0, "--top-module"@, b.virtual_top->0]
        + b.verilog_files + sp_dash_wno(b.warnings)
}

impl View for Build {
    type V = BuildView;

    closed spec fn view(&self) -> BuildView {
        BuildView {
            virtual_top: self.virtual_top.deep_view(),
            top: self.top.deep_view(),
            clock: self.clock.deep_view(),
            reset: self.reset.deep_view(),
            dpi: self.dpi,
            warnings: self.warnings.deep_view(),
            verilog_files: self.verilog_files.deep_view(),
            out_dir: self.out_dir.deep_view(),
            handlebars_dir: self.handlebars_dir.deep_view(),
            bin: self.bin.deep_view(),
        }
    }
}

impl Build {
    fn get_top(&self) -> (r: String)
        requires
            self@.top is Some,
        ensures
            Some(r@) == self@.top,
    {
        self.top.as_ref().unwrap().clone()
    }

    fn get_virtual_top(&self) -> (r: String)
        requires
            self@.virtual_top is Some,
        ensures
            Some(r@) == self@.virtual_top,
    {
        self.virtual_top.as_ref().unwrap().clone()
    }

    fn get_clock(&self) -> (r: String)
        requires
            self@.clock is Some,
        ensures
            Some(r@) == self@.clock,
    {
        self.clock.as_ref().unwrap().clone()
    }

    fn get_reset(&self) -> (r: String)
        requires
            self@.reset is Some,
        ensures
            Some(r@) == self@.reset,
    {
        self.reset.as_ref().unwrap().clone()
    }

    fn get_out_dir(&self) -> (r: String)
        requires
            self@.out_dir is Some,
        ensures
            Some(r@) == self@.out_dir,
    {
        self.out_dir.as_ref().unwrap().clone()
    }

    fn get_handlebars_dir(&self) -> (r: String)
        requires
            self@.handlebars_dir is Some,
        ensures
            Some(r@) == self@.handlebars_dir,
    {
        self.handlebars_dir.as_ref().unwrap().clone()
    }

    fn get_bin(&self) -> (r: String)
        requires
            self@.bin is Some,
        ensures
            Some(r@) == self@.bin,
    {
        self.bin.as_ref().unwrap().clone()
    }

    /// A fresh configuration rooted at the tool's own source tree.
    pub fn new(root_dir: &str) -> (b: Build)
        ensures
            b@.virtual_top is None,
            b@.top is None,
            b@.clock == Some("clock"@),
            b@.reset == Some("reset"@),
            b@.dpi == false,
            b@.warnings == Seq::<Seq<char>>::empty(),
            b@.verilog_files == Seq::<Seq<char>>::empty(),
            b@.out_dir is None,
            b@.handlebars_dir == Some(sp_join(root_dir@, "src/handlebars"@)),
            b@.bin == Some(sp_join(root_dir@, "verilator/build/bin/verilator"@)),
    {
        let b = Build {
            virtual_top: None,
            top: None,
            clock: Some("clock".to_owned()),
            reset: Some("reset".to_owned()),
            dpi: false,
            warnings: Vec::new(),
            verilog_files: Vec::new(),
            out_dir: None,
            handlebars_dir: Some(path_join(root_dir, "src/handlebars")),
            bin: Some(path_join(root_dir, "verilator/build/bin/verilator")),
        };
        proof {
            assert(b@.warnings =~= Seq::<Seq<char>>::empty());
            assert(b@.verilog_files =~= Seq::<Seq<char>>::empty());
        }
        b
    }

    /// Silence one simulator warning class.
    pub fn disable_warning(&mut self, name: &str)
        ensures
            final(self)@ == (BuildView { warnings: old(self)@.warnings.push(name@), ..old(self)@ }),
    {
        let ghost pre = *self;
        self.warnings.push(name.to_owned());
        proof {
            lemma_vec_push_deep_view(pre.warnings, self.warnings, self.warnings@.last());
        }
    }

    /// Name the top module of the user's design; the virtual top
    /// wrapping it takes a double underscore prefix.
    pub fn top_module(&mut self, name: &str)
        ensures
            final(self)@ == (BuildView {
                top: Some(name@),
                virtual_top: Some("__"@ + name@),
                ..old(self)@
            }),
    {
        self.top = Some(name.to_owned());
        let mut v = "__".to_owned();
        v.append(name);
        self.virtual_top = Some(v);
    }

    /// Name the clock signal.
    pub fn clock(&mut self, name: &str)
        ensures
            final(self)@ == (BuildView { clock: Some(name@), ..old(self)@ }),
    {
        self.clock = Some(name.to_owned());
    }

    /// Name the reset signal.
    pub fn reset(&mut self, name: &str)
        ensures
            final(self)@ == (BuildView { reset: Some(name@), ..old(self)@ }),
    {
        self.reset = Some(name.to_owned());
    }

    /// Switch the cross-language interface on or off.
    pub fn dpi_flag(&mut self, flag: bool)
        ensures
            final(self)@ == (BuildView { dpi: flag, ..old(self)@ }),
    {
        self.dpi = flag;
    }

    /// Set the output directory.
    pub fn out_dir(&mut self, out: &str)
        ensures
            final(self)@ == (BuildView { out_dir: Some(out@), ..old(self)@ }),
    {
        self.out_dir = Some(out.to_owned());
    }

    /// The argument list handed to the simulator binary: emit native
    /// sources into the output directory for the virtual top over the
    /// configured HDL files, warnings silenced as configured.
    pub fn verilator_args(&self) -> (r: Vec<String>)
        requires
            self@.out_dir is Some,
            self@.virtual_top is Some,
        ensures
            r.deep_view() == sp_verilator_args(self@),
    {
        let mut args: Vec<String> = Vec::new();
        push_string(&mut args, "--cc".to_owned());
        push_string(&mut args, "-Mdir".to_owned());
        push_string(&mut args, self.get_out_dir());
        push_string(&mut args, "--top-module".to_owned());
        push_string(&mut args, self.get_virtual_top());
        let ghost base = args.deep_view();
        proof {
            assert(base =~= seq![
                "--cc"@,
                "-Mdir"@,
                self@.out_dir->0,
                "--top-module"@,
                self@.virtual_top->0,
            ]);
        }
        let mut i: usize = 0;
        proof {
            assert(args.deep_view() =~= base + self@.verilog_files.take(0));
        }
        while i < self.verilog_files.len()
            invariant
                i <= self.verilog_files.len(),
                self@.verilog_files.len() == self.verilog_files.len(),
                args.deep_view() == base + self@.verilog_files.take(i as int),
            decreases self.verilog_files.len() - i,
        {
            push_string(&mut args, self.verilog_files[i].clone());
            proof {
                assert(self@.verilog_files[i as int] == self.verilog_files@[i as int]@);
                assert(args.deep_view() =~= base + self@.verilog_files.take(i + 1));
            }
            i = i + 1;
        }
        proof {
            assert(self@.verilog_files.take(self.verilog_files.len() as int)
                =~= self@.verilog_files);
        }
        let ghost base2 = args.deep_view();
        let mut k: usize = 0;
        proof {
            assert(args.deep_view() =~= base2 + sp_dash_wno(self@.warnings.take(0)));
        }
        while k < self.warnings.len()
            invariant
                k <= self.warnings.len(),
                self@.warnings.len() == self.warnings.len(),
                args.deep_view() == base2 + sp_dash_wno(self@.warnings.take(k as int)),
            decreases self.warnings.len() - k,
        {
            let mut s = "-Wno-".to_owned();
            s.append(self.warnings[k].as_str());
            push_string(&mut args, s);
            proof {
                assert(self@.warnings[k as int] == self.warnings@[k as int]@);
                assert(args.deep_view() =~= base2 + sp_dash_wno(self@.warnings.take(k + 1)));
            }
            k = k + 1;
        }
        proof {
            assert(self@.warnings.take(self.warnings.len() as int) =~= self@.warnings);
            assert(args.deep_view() =~= sp_verilator_args(self@));
        }
        args
    }

    /// Add one HDL source file.
    pub fn verilog_file(&mut self, file: &str)
        ensures
            final(self)@ == (BuildView {
                verilog_files: old(self)@.verilog_files.push(file@),
                ..old(self)@
            }),
    {
        let ghost pre = *self;
        self.verilog_files.push(file.to_owned());
        proof {
            lemma_vec_push_deep_view(pre.verilog_files, self.verilog_files, self.verilog_files@.last());
        }
    }
}

} // verus!
