//! The text of the badge: the vendor's name, the model and the frequency unit.

use vstd::prelude::*;

use crate::cpuinfo::CpuInfoMap;
use crate::text::{chars_equal, chars_of, push_str};

verus! {

broadcast use vstd::string::group_string_axioms;

/// The vendor behind a CPUID vendor string, for the vendors the badge knows.
pub open spec fn spec_vendor_name(id: Seq<char>) -> Option<Seq<char>> {
    if id == "AMDisbetter!"@ {
        Some("AMD"@)
    } else if id == "AuthenticAMD"@ {
        Some("AMD"@)
    } else if id == "CentaurHauls"@ {
        Some("Centaur"@)
    } else if id == "CyrixInstead"@ {
        Some("Cyrix"@)
    } else if id == "GenuineIntel"@ {
        Some("Intel"@)
    } else if id == "TransmetaCPU"@ {
        Some("Transmeta"@)
    } else if id == "GenuineTMx86"@ {
        Some("Transmeta"@)
    } else if id == "Geode by NSC"@ {
        Some("National Semiconductor"@)
    } else if id == "NexGenDriven"@ {
        Some("NexGen"@)
    } else if id == "RiseRiseRise"@ {
        Some("Rise"@)
    } else if id == "SiS SiS SiS "@ {
        Some("SiS"@)
    } else if id == "UMC UMC UMC "@ {
        Some("UMC"@)
    } else if id == "VIA VIA VIA "@ {
        Some("VIA"@)
    } else if id == "Vortex86 SoC"@ {
        Some("DM&P Vortex86"@)
    } else if id == "  Shanghai  "@ {
        Some("Zhaoxin"@)
    } else if id == "HygonGenuine"@ {
        Some("Hygon"@)
    } else if id == "E2K MACHINE"@ {
        Some("MCST Elbrus"@)
    } else if id == "MiSTer AO486"@ {
        Some("ao486"@)
    } else if id == "bhyve bhyve "@ {
        Some("bhyve"@)
    } else if id == " KVMKVMKVM  "@ {
        Some("KVM"@)
    } else if id == "TCGTCGTCGTCG"@ {
        Some("QEMU"@)
    } else if id == "Microsoft Hv"@ {
        Some("Hyper-V"@)
    } else if id == " lrpepyh  vr"@ {
        Some("Parallels"@)
    } else if id == "VMwareVMware"@ {
        Some("VMware"@)
    } else if id == "XenVMMXenVMM"@ {
        Some("Xen HVM"@)
    } else if id == "ACRNACRNACRN"@ {
        Some("ACRN"@)
    } else if id == " QNXQVMBSQG "@ {
        Some("QNX"@)
    } else {
        None
    }
}

/// Every CPUID vendor string of the badge's table names its own vendor:
/// each row, checked on its own.
pub proof fn law_vendor_table_rows()
    ensures
        spec_vendor_name("AMDisbetter!"@) == Some("AMD"@),
        spec_vendor_name("AuthenticAMD"@) == Some("AMD"@),
        spec_vendor_name("CentaurHauls"@) == Some("Centaur"@),
        spec_vendor_name("CyrixInstead"@) == Some("Cyrix"@),
        spec_vendor_name("GenuineIntel"@) == Some("Intel"@),
        spec_vendor_name("TransmetaCPU"@) == Some("Transmeta"@),
        spec_vendor_name("GenuineTMx86"@) == Some("Transmeta"@),
        spec_vendor_name("Geode by NSC"@) == Some("National Semiconductor"@),
        spec_vendor_name("NexGenDriven"@) == Some("NexGen"@),
        spec_vendor_name("RiseRiseRise"@) == Some("Rise"@),
        spec_vendor_name("SiS SiS SiS "@) == Some("SiS"@),
        spec_vendor_name("UMC UMC UMC "@) == Some("UMC"@),
        spec_vendor_name("VIA VIA VIA "@) == Some("VIA"@),
        spec_vendor_name("Vortex86 SoC"@) == Some("DM&P Vortex86"@),
        spec_vendor_name("  Shanghai  "@) == Some("Zhaoxin"@),
        spec_vendor_name("HygonGenuine"@) == Some("Hygon"@),
        spec_vendor_name("E2K MACHINE"@) == Some("MCST Elbrus"@),
        spec_vendor_name("MiSTer AO486"@) == Some("ao486"@),
        spec_vendor_name("bhyve bhyve "@) == Some("bhyve"@),
        spec_vendor_name(" KVMKVMKVM  "@) == Some("KVM"@),
        spec_vendor_name("TCGTCGTCGTCG"@) == Some("QEMU"@),
        spec_vendor_name("Microsoft Hv"@) == Some("Hyper-V"@),
        spec_vendor_name(" lrpepyh  vr"@) == Some("Parallels"@),
        spec_vendor_name("VMwareVMware"@) == Some("VMware"@),
        spec_vendor_name("XenVMMXenVMM"@) == Some("Xen HVM"@),
        spec_vendor_name("ACRNACRNACRN"@) == Some("ACRN"@),
        spec_vendor_name(" QNXQVMBSQG "@) == Some("QNX"@),
{
    assert(spec_vendor_name("AMDisbetter!"@) == Some("AMD"@)) by {
        reveal_strlit("AMDisbetter!");
    }
    assert(spec_vendor_name("AuthenticAMD"@) == Some("AMD"@)) by {
        reveal_strlit("AuthenticAMD");
        reveal_strlit("AMDisbetter!");
        assert("AuthenticAMD"@[1] != "AMDisbetter!"@[1]);
    }
    assert(spec_vendor_name("CentaurHauls"@) == Some("Centaur"@)) by {
        reveal_strlit("CentaurHauls");
        reveal_strlit("AMDisbetter!");
        assert("CentaurHauls"@[0] != "AMDisbetter!"@[0]);
        reveal_strlit("AuthenticAMD");
        assert("CentaurHauls"@[0] != "AuthenticAMD"@[0]);
    }
    assert(spec_vendor_name("CyrixInstead"@) == Some("Cyrix"@)) by {
        reveal_strlit("CyrixInstead");
        reveal_strlit("AMDisbetter!");
        assert("CyrixInstead"@[0] != "AMDisbetter!"@[0]);
        reveal_strlit("AuthenticAMD");
        assert("CyrixInstead"@[0] != "AuthenticAMD"@[0]);
        reveal_strlit("CentaurHauls");
        assert("CyrixInstead"@[1] != "CentaurHauls"@[1]);
    }
    assert(spec_vendor_name("GenuineIntel"@) == Some("Intel"@)) by {
        reveal_strlit("GenuineIntel");
        reveal_strlit("AMDisbetter!");
        assert("GenuineIntel"@[0] != "AMDisbetter!"@[0]);
        reveal_strlit("AuthenticAMD");
        assert("GenuineIntel"@[0] != "AuthenticAMD"@[0]);
        reveal_strlit("CentaurHauls");
        assert("GenuineIntel"@[0] != "CentaurHauls"@[0]);
        reveal_strlit("CyrixInstead");
        assert("GenuineIntel"@[0] != "CyrixInstead"@[0]);
    }
    assert(spec_vendor_name("TransmetaCPU"@) == Some("Transmeta"@)) by {
        reveal_strlit("TransmetaCPU");
        reveal_strlit("AMDisbetter!");
        assert("TransmetaCPU"@[0] != "AMDisbetter!"@[0]);
        reveal_strlit("AuthenticAMD");
        assert("TransmetaCPU"@[0] != "AuthenticAMD"@[0]);
        reveal_strlit("CentaurHauls");
        assert("TransmetaCPU"@[0] != "CentaurHauls"@[0]);
        reveal_strlit("CyrixInstead");
        assert("TransmetaCPU"@[0] != "CyrixInstead"@[0]);
        reveal_strlit("GenuineIntel");
        assert("TransmetaCPU"@[0] != "GenuineIntel"@[0]);
    }
    assert(spec_vendor_name("GenuineTMx86"@) == Some("Transmeta"@)) by {
        reveal_strlit("GenuineTMx86");
        reveal_strlit("AMDisbetter!");
        assert("GenuineTMx86"@[0] != "AMDisbetter!"@[0]);
        reveal_strlit("AuthenticAMD");
        assert("GenuineTMx86"@[0] != "AuthenticAMD"@[0]);
        reveal_strlit("CentaurHauls");
        assert("GenuineTMx86"@[0] != "CentaurHauls"@[0]);
        reveal_strlit("CyrixInstead");
        assert("GenuineTMx86"@[0] != "CyrixInstead"@[0]);
        reveal_strlit("GenuineIntel");
        assert("GenuineTMx86"@[7] != "GenuineIntel"@[7]);
        reveal_strlit("TransmetaCPU");
        assert("GenuineTMx86"@[0] != "TransmetaCPU"@[0]);
    }
    assert(spec_vendor_name("Geode by NSC"@) == Some("National Semiconductor"@)) by {
        reveal_strlit("Geode by NSC");
        reveal_strlit("AMDisbetter!");
        assert("Geode by NSC"@[0] != "AMDisbetter!"@[0]);
        reveal_strlit("AuthenticAMD");
        assert("Geode by NSC"@[0] != "AuthenticAMD"@[0]);
        reveal_strlit("CentaurHauls");
        assert("Geode by NSC"@[0] != "CentaurHauls"@[0]);
        reveal_strlit("CyrixInstead");
        assert("Geode by NSC"@[0] != "CyrixInstead"@[0]);
        reveal_strlit("GenuineIntel");
        assert("Geode by NSC"@[2] != "GenuineIntel"@[2]);
        reveal_strlit("TransmetaCPU");
        assert("Geode by NSC"@[0] != "TransmetaCPU"@[0]);
        reveal_strlit("GenuineTMx86");
        assert("Geode by NSC"@[2] != "GenuineTMx86"@[2]);
    }
    assert(spec_vendor_name("NexGenDriven"@) == Some("NexGen"@)) by {
        reveal_strlit("NexGenDriven");
        reveal_strlit("AMDisbetter!");
        assert("NexGenDriven"@[0] != "AMDisbetter!"@[0]);
        reveal_strlit("AuthenticAMD");
        assert("NexGenDriven"@[0] != "AuthenticAMD"@[0]);
        reveal_strlit("CentaurHauls");
        assert("NexGenDriven"@[0] != "CentaurHauls"@[0]);
        reveal_strlit("CyrixInstead");
        assert("NexGenDriven"@[0] != "CyrixInstead"@[0]);
        reveal_strlit("GenuineIntel");
        assert("NexGenDriven"@[0] != "GenuineIntel"@[0]);
        reveal_strlit("TransmetaCPU");
        assert("NexGenDriven"@[0] != "TransmetaCPU"@[0]);
        reveal_strlit("GenuineTMx86");
        assert("NexGenDriven"@[0] != "GenuineTMx86"@[0]);
        reveal_strlit("Geode by NSC");
        assert("NexGenDriven"@[0] != "Geode by NSC"@[0]);
    }
    assert(spec_vendor_name("RiseRiseRise"@) == Some("Rise"@)) by {
        reveal_strlit("RiseRiseRise");
        reveal_strlit("AMDisbetter!");
        assert("RiseRiseRise"@[0] != "AMDisbetter!"@[0]);
        reveal_strlit("AuthenticAMD");
        assert("RiseRiseRise"@[0] != "AuthenticAMD"@[0]);
        reveal_strlit("CentaurHauls");
        assert("RiseRiseRise"@[0] != "CentaurHauls"@[0]);
        reveal_strlit("CyrixInstead");
        assert("RiseRiseRise"@[0] != "CyrixInstead"@[0]);
        reveal_strlit("GenuineIntel");
        assert("RiseRiseRise"@[0] != "GenuineIntel"@[0]);
        reveal_strlit("TransmetaCPU");
        assert("RiseRiseRise"@[0] != "TransmetaCPU"@[0]);
        reveal_strlit("GenuineTMx86");
        assert("RiseRiseRise"@[0] != "GenuineTMx86"@[0]);
        reveal_strlit("Geode by NSC");
        assert("RiseRiseRise"@[0] != "Geode by NSC"@[0]);
        reveal_strlit("NexGenDriven");
        assert("RiseRiseRise"@[0] != "NexGenDriven"@[0]);
    }
    assert(spec_vendor_name("SiS SiS SiS "@) == Some("SiS"@)) by {
        reveal_strlit("SiS SiS SiS ");
        reveal_strlit("AMDisbetter!");
        assert("SiS SiS SiS "@[0] != "AMDisbetter!"@[0]);
        reveal_strlit("AuthenticAMD");
        assert("SiS SiS SiS "@[0] != "AuthenticAMD"@[0]);
        reveal_strlit("CentaurHauls");
        assert("SiS SiS SiS "@[0] != "CentaurHauls"@[0]);
        reveal_strlit("CyrixInstead");
        assert("SiS SiS SiS "@[0] != "CyrixInstead"@[0]);
        reveal_strlit("GenuineIntel");
        assert("SiS SiS SiS "@[0] != "GenuineIntel"@[0]);
        reveal_strlit("TransmetaCPU");
        assert("SiS SiS SiS "@[0] != "TransmetaCPU"@[0]);
        reveal_strlit("GenuineTMx86");
        assert("SiS SiS SiS "@[0] != "GenuineTMx86"@[0]);
        reveal_strlit("Geode by NSC");
        assert("SiS SiS SiS "@[0] != "Geode by NSC"@[0]);
        reveal_strlit("NexGenDriven");
        assert("SiS SiS SiS "@[0] != "NexGenDriven"@[0]);
        reveal_strlit("RiseRiseRise");
        assert("SiS SiS SiS "@[0] != "RiseRiseRise"@[0]);
    }
    assert(spec_vendor_name("UMC UMC UMC "@) == Some("UMC"@)) by {
        reveal_strlit("UMC UMC UMC ");
        reveal_strlit("AMDisbetter!");
        assert("UMC UMC UMC "@[0] != "AMDisbetter!"@[0]);
        reveal_strlit("AuthenticAMD");
        assert("UMC UMC UMC "@[0] != "AuthenticAMD"@[0]);
        reveal_strlit("CentaurHauls");
        assert("UMC UMC UMC "@[0] != "CentaurHauls"@[0]);
        reveal_strlit("CyrixInstead");
        assert("UMC UMC UMC "@[0] != "CyrixInstead"@[0]);
        reveal_strlit("GenuineIntel");
        assert("UMC UMC UMC "@[0] != "GenuineIntel"@[0]);
        reveal_strlit("TransmetaCPU");
        assert("UMC UMC UMC "@[0] != "TransmetaCPU"@[0]);
        reveal_strlit("GenuineTMx86");
        assert("UMC UMC UMC "@[0] != "GenuineTMx86"@[0]);
        reveal_strlit("Geode by NSC");
        assert("UMC UMC UMC "@[0] != "Geode by NSC"@[0]);
        reveal_strlit("NexGenDriven");
        assert("UMC UMC UMC "@[0] != "NexGenDriven"@[0]);
        reveal_strlit("RiseRiseRise");
        assert("UMC UMC UMC "@[0] != "RiseRiseRise"@[0]);
        reveal_strlit("SiS SiS SiS ");
        assert("UMC UMC UMC "@[0] != "SiS SiS SiS "@[0]);
    }
    assert(spec_vendor_name("VIA VIA VIA "@) == Some("VIA"@)) by {
        reveal_strlit("VIA VIA VIA ");
        reveal_strlit("AMDisbetter!");
        assert("VIA VIA VIA "@[0] != "AMDisbetter!"@[0]);
        reveal_strlit("AuthenticAMD");
        assert("VIA VIA VIA "@[0] != "AuthenticAMD"@[0]);
        reveal_strlit("CentaurHauls");
        assert("VIA VIA VIA "@[0] != "CentaurHauls"@[0]);
        reveal_strlit("CyrixInstead");
        assert("VIA VIA VIA "@[0] != "CyrixInstead"@[0]);
        reveal_strlit("GenuineIntel");
        assert("VIA VIA VIA "@[0] != "GenuineIntel"@[0]);
        reveal_strlit("TransmetaCPU");
        assert("VIA VIA VIA "@[0] != "TransmetaCPU"@[0]);
        reveal_strlit("GenuineTMx86");
        assert("VIA VIA VIA "@[0] != "GenuineTMx86"@[0]);
        reveal_strlit("Geode by NSC");
        assert("VIA VIA VIA "@[0] != "Geode by NSC"@[0]);
        reveal_strlit("NexGenDriven");
        assert("VIA VIA VIA "@[0] != "NexGenDriven"@[0]);
        reveal_strlit("RiseRiseRise");
        assert("VIA VIA VIA "@[0] != "RiseRiseRise"@[0]);
        reveal_strlit("SiS SiS SiS ");
        assert("VIA VIA VIA "@[0] != "SiS SiS SiS "@[0]);
        reveal_strlit("UMC UMC UMC ");
        assert("VIA VIA VIA "@[0] != "UMC UMC UMC "@[0]);
    }
    assert(spec_vendor_name("Vortex86 SoC"@) == Some("DM&P Vortex86"@)) by {
        reveal_strlit("Vortex86 SoC");
        reveal_strlit("AMDisbetter!");
        assert("Vortex86 SoC"@[0] != "AMDisbetter!"@[0]);
        reveal_strlit("AuthenticAMD");
        assert("Vortex86 SoC"@[0] != "AuthenticAMD"@[0]);
        reveal_strlit("CentaurHauls");
        assert("Vortex86 SoC"@[0] != "CentaurHauls"@[0]);
        reveal_strlit("CyrixInstead");
        assert("Vortex86 SoC"@[0] != "CyrixInstead"@[0]);
        reveal_strlit("GenuineIntel");
        assert("Vortex86 SoC"@[0] != "GenuineIntel"@[0]);
        reveal_strlit("TransmetaCPU");
        assert("Vortex86 SoC"@[0] != "TransmetaCPU"@[0]);
        reveal_strlit("GenuineTMx86");
        assert("Vortex86 SoC"@[0] != "GenuineTMx86"@[0]);
        reveal_strlit("Geode by NSC");
        assert("Vortex86 SoC"@[0] != "Geode by NSC"@[0]);
        reveal_strlit("NexGenDriven");
        assert("Vortex86 SoC"@[0] != "NexGenDriven"@[0]);
        reveal_strlit("RiseRiseRise");
        assert("Vortex86 SoC"@[0] != "RiseRiseRise"@[0]);
        reveal_strlit("SiS SiS SiS ");
        assert("Vortex86 SoC"@[0] != "SiS SiS SiS "@[0]);
        reveal_strlit("UMC UMC UMC ");
        assert("Vortex86 SoC"@[0] != "UMC UMC UMC "@[0]);
        reveal_strlit("VIA VIA VIA ");
        assert("Vortex86 SoC"@[1] != "VIA VIA VIA "@[1]);
    }
    assert(spec_vendor_name("  Shanghai  "@) == Some("Zhaoxin"@)) by {
        reveal_strlit("  Shanghai  ");
        reveal_strlit("AMDisbetter!");
        assert("  Shanghai  "@[0] != "AMDisbetter!"@[0]);
        reveal_strlit("AuthenticAMD");
        assert("  Shanghai  "@[0] != "AuthenticAMD"@[0]);
        reveal_strlit("CentaurHauls");
        assert("  Shanghai  "@[0] != "CentaurHauls"@[0]);
        reveal_strlit("CyrixInstead");
        assert("  Shanghai  "@[0] != "CyrixInstead"@[0]);
        reveal_strlit("GenuineIntel");
        assert("  Shanghai  "@[0] != "GenuineIntel"@[0]);
        reveal_strlit("TransmetaCPU");
        assert("  Shanghai  "@[0] != "TransmetaCPU"@[0]);
        reveal_strlit("GenuineTMx86");
        assert("  Shanghai  "@[0] != "GenuineTMx86"@[0]);
        reveal_strlit("Geode by NSC");
        assert("  Shanghai  "@[0] != "Geode by NSC"@[0]);
        reveal_strlit("NexGenDriven");
        assert("  Shanghai  "@[0] != "NexGenDriven"@[0]);
        reveal_strlit("RiseRiseRise");
        assert("  Shanghai  "@[0] != "RiseRiseRise"@[0]);
        reveal_strlit("SiS SiS SiS ");
        assert("  Shanghai  "@[0] != "SiS SiS SiS "@[0]);
        reveal_strlit("UMC UMC UMC ");
        assert("  Shanghai  "@[0] != "UMC UMC UMC "@[0]);
        reveal_strlit("VIA VIA VIA ");
        assert("  Shanghai  "@[0] != "VIA VIA VIA "@[0]);
        reveal_strlit("Vortex86 SoC");
        assert("  Shanghai  "@[0] != "Vortex86 SoC"@[0]);
    }
    assert(spec_vendor_name("HygonGenuine"@) == Some("Hygon"@)) by {
        reveal_strlit("HygonGenuine");
        reveal_strlit("AMDisbetter!");
        assert("HygonGenuine"@[0] != "AMDisbetter!"@[0]);
        reveal_strlit("AuthenticAMD");
        assert("HygonGenuine"@[0] != "AuthenticAMD"@[0]);
        reveal_strlit("CentaurHauls");
        assert("HygonGenuine"@[0] != "CentaurHauls"@[0]);
        reveal_strlit("CyrixInstead");
        assert("HygonGenuine"@[0] != "CyrixInstead"@[0]);
        reveal_strlit("GenuineIntel");
        assert("HygonGenuine"@[0] != "GenuineIntel"@[0]);
        reveal_strlit("TransmetaCPU");
        assert("HygonGenuine"@[0] != "TransmetaCPU"@[0]);
        reveal_strlit("GenuineTMx86");
        assert("HygonGenuine"@[0] != "GenuineTMx86"@[0]);
        reveal_strlit("Geode by NSC");
        assert("HygonGenuine"@[0] != "Geode by NSC"@[0]);
        reveal_strlit("NexGenDriven");
        assert("HygonGenuine"@[0] != "NexGenDriven"@[0]);
        reveal_strlit("RiseRiseRise");
        assert("HygonGenuine"@[0] != "RiseRiseRise"@[0]);
        reveal_strlit("SiS SiS SiS ");
        assert("HygonGenuine"@[0] != "SiS SiS SiS "@[0]);
        reveal_strlit("UMC UMC UMC ");
        assert("HygonGenuine"@[0] != "UMC UMC UMC "@[0]);
        reveal_strlit("VIA VIA VIA ");
        assert("HygonGenuine"@[0] != "VIA VIA VIA "@[0]);
        reveal_strlit("Vortex86 SoC");
        assert("HygonGenuine"@[0] != "Vortex86 SoC"@[0]);
        reveal_strlit("  Shanghai  ");
        assert("HygonGenuine"@[0] != "  Shanghai  "@[0]);
    }
    assert(spec_vendor_name("E2K MACHINE"@) == Some("MCST Elbrus"@)) by {
        reveal_strlit("E2K MACHINE");
        reveal_strlit("AMDisbetter!");
        assert("E2K MACHINE"@.len() != "AMDisbetter!"@.len());
        reveal_strlit("AuthenticAMD");
        assert("E2K MACHINE"@.len() != "AuthenticAMD"@.len());
        reveal_strlit("CentaurHauls");
        assert("E2K MACHINE"@.len() != "CentaurHauls"@.len());
        reveal_strlit("CyrixInstead");
        assert("E2K MACHINE"@.len() != "CyrixInstead"@.len());
        reveal_strlit("GenuineIntel");
        assert("E2K MACHINE"@.len() != "GenuineIntel"@.len());
        reveal_strlit("TransmetaCPU");
        assert("E2K MACHINE"@.len() != "TransmetaCPU"@.len());
        reveal_strlit("GenuineTMx86");
        assert("E2K MACHINE"@.len() != "GenuineTMx86"@.len());
        reveal_strlit("Geode by NSC");
        assert("E2K MACHINE"@.len() != "Geode by NSC"@.len());
        reveal_strlit("NexGenDriven");
        assert("E2K MACHINE"@.len() != "NexGenDriven"@.len());
        reveal_strlit("RiseRiseRise");
        assert("E2K MACHINE"@.len() != "RiseRiseRise"@.len());
        reveal_strlit("SiS SiS SiS ");
        assert("E2K MACHINE"@.len() != "SiS SiS SiS "@.len());
        reveal_strlit("UMC UMC UMC ");
        assert("E2K MACHINE"@.len() != "UMC UMC UMC "@.len());
        reveal_strlit("VIA VIA VIA ");
        assert("E2K MACHINE"@.len() != "VIA VIA VIA "@.len());
        reveal_strlit("Vortex86 SoC");
        assert("E2K MACHINE"@.len() != "Vortex86 SoC"@.len());
        reveal_strlit("  Shanghai  ");
        assert("E2K MACHINE"@.len() != "  Shanghai  "@.len());
        reveal_strlit("HygonGenuine");
        assert("E2K MACHINE"@.len() != "HygonGenuine"@.len());
    }
    assert(spec_vendor_name("MiSTer AO486"@) == Some("ao486"@)) by {
        reveal_strlit("MiSTer AO486");
        reveal_strlit("AMDisbetter!");
        assert("MiSTer AO486"@[0] != "AMDisbetter!"@[0]);
        reveal_strlit("AuthenticAMD");
        assert("MiSTer AO486"@[0] != "AuthenticAMD"@[0]);
        reveal_strlit("CentaurHauls");
        assert("MiSTer AO486"@[0] != "CentaurHauls"@[0]);
        reveal_strlit("CyrixInstead");
        assert("MiSTer AO486"@[0] != "CyrixInstead"@[0]);
        reveal_strlit("GenuineIntel");
        assert("MiSTer AO486"@[0] != "GenuineIntel"@[0]);
        reveal_strlit("TransmetaCPU");
        assert("MiSTer AO486"@[0] != "TransmetaCPU"@[0]);
        reveal_strlit("GenuineTMx86");
        assert("MiSTer AO486"@[0] != "GenuineTMx86"@[0]);
        reveal_strlit("Geode by NSC");
        assert("MiSTer AO486"@[0] != "Geode by NSC"@[0]);
        reveal_strlit("NexGenDriven");
        assert("MiSTer AO486"@[0] != "NexGenDriven"@[0]);
        reveal_strlit("RiseRiseRise");
        assert("MiSTer AO486"@[0] != "RiseRiseRise"@[0]);
        reveal_strlit("SiS SiS SiS ");
        assert("MiSTer AO486"@[0] != "SiS SiS SiS "@[0]);
        reveal_strlit("UMC UMC UMC ");
        assert("MiSTer AO486"@[0] != "UMC UMC UMC "@[0]);
        reveal_strlit("VIA VIA VIA ");
        assert("MiSTer AO486"@[0] != "VIA VIA VIA "@[0]);
        reveal_strlit("Vortex86 SoC");
        assert("MiSTer AO486"@[0] != "Vortex86 SoC"@[0]);
        reveal_strlit("  Shanghai  ");
        assert("MiSTer AO486"@[0] != "  Shanghai  "@[0]);
        reveal_strlit("HygonGenuine");
        assert("MiSTer AO486"@[0] != "HygonGenuine"@[0]);
        reveal_strlit("E2K MACHINE");
        assert("MiSTer AO486"@.len() != "E2K MACHINE"@.len());
    }
    assert(spec_vendor_name("bhyve bhyve "@) == Some("bhyve"@)) by {
        reveal_strlit("bhyve bhyve ");
        reveal_strlit("AMDisbetter!");
        assert("bhyve bhyve "@[0] != "AMDisbetter!"@[0]);
        reveal_strlit("AuthenticAMD");
        assert("bhyve bhyve "@[0] != "AuthenticAMD"@[0]);
        reveal_strlit("CentaurHauls");
        assert("bhyve bhyve "@[0] != "CentaurHauls"@[0]);
        reveal_strlit("CyrixInstead");
        assert("bhyve bhyve "@[0] != "CyrixInstead"@[0]);
        reveal_strlit("GenuineIntel");
        assert("bhyve bhyve "@[0] != "GenuineIntel"@[0]);
        reveal_strlit("TransmetaCPU");
        assert("bhyve bhyve "@[0] != "TransmetaCPU"@[0]);
        reveal_strlit("GenuineTMx86");
        assert("bhyve bhyve "@[0] != "GenuineTMx86"@[0]);
        reveal_strlit("Geode by NSC");
        assert("bhyve bhyve "@[0] != "Geode by NSC"@[0]);
        reveal_strlit("NexGenDriven");
        assert("bhyve bhyve "@[0] != "NexGenDriven"@[0]);
        reveal_strlit("RiseRiseRise");
        assert("bhyve bhyve "@[0] != "RiseRiseRise"@[0]);
        reveal_strlit("SiS SiS SiS ");
        assert("bhyve bhyve "@[0] != "SiS SiS SiS "@[0]);
        reveal_strlit("UMC UMC UMC ");
        assert("bhyve bhyve "@[0] != "UMC UMC UMC "@[0]);
        reveal_strlit("VIA VIA VIA ");
        assert("bhyve bhyve "@[0] != "VIA VIA VIA "@[0]);
        reveal_strlit("Vortex86 SoC");
        assert("bhyve bhyve "@[0] != "Vortex86 SoC"@[0]);
        reveal_strlit("  Shanghai  ");
        assert("bhyve bhyve "@[0] != "  Shanghai  "@[0]);
        reveal_strlit("HygonGenuine");
        assert("bhyve bhyve "@[0] != "HygonGenuine"@[0]);
        reveal_strlit("E2K MACHINE");
        assert("bhyve bhyve "@.len() != "E2K MACHINE"@.len());
        reveal_strlit("MiSTer AO486");
        assert("bhyve bhyve "@[0] != "MiSTer AO486"@[0]);
    }
    assert(spec_vendor_name(" KVMKVMKVM  "@) == Some("KVM"@)) by {
        reveal_strlit(" KVMKVMKVM  ");
        reveal_strlit("AMDisbetter!");
        assert(" KVMKVMKVM  "@[0] != "AMDisbetter!"@[0]);
        reveal_strlit("AuthenticAMD");
        assert(" KVMKVMKVM  "@[0] != "AuthenticAMD"@[0]);
        reveal_strlit("CentaurHauls");
        assert(" KVMKVMKVM  "@[0] != "CentaurHauls"@[0]);
        reveal_strlit("CyrixInstead");
        assert(" KVMKVMKVM  "@[0] != "CyrixInstead"@[0]);
        reveal_strlit("GenuineIntel");
        assert(" KVMKVMKVM  "@[0] != "GenuineIntel"@[0]);
        reveal_strlit("TransmetaCPU");
        assert(" KVMKVMKVM  "@[0] != "TransmetaCPU"@[0]);
        reveal_strlit("GenuineTMx86");
        assert(" KVMKVMKVM  "@[0] != "GenuineTMx86"@[0]);
        reveal_strlit("Geode by NSC");
        assert(" KVMKVMKVM  "@[0] != "Geode by NSC"@[0]);
        reveal_strlit("NexGenDriven");
        assert(" KVMKVMKVM  "@[0] != "NexGenDriven"@[0]);
        reveal_strlit("RiseRiseRise");
        assert(" KVMKVMKVM  "@[0] != "RiseRiseRise"@[0]);
        reveal_strlit("SiS SiS SiS ");
        assert(" KVMKVMKVM  "@[0] != "SiS SiS SiS "@[0]);
        reveal_strlit("UMC UMC UMC ");
        assert(" KVMKVMKVM  "@[0] != "UMC UMC UMC "@[0]);
        reveal_strlit("VIA VIA VIA ");
        assert(" KVMKVMKVM  "@[0] != "VIA VIA VIA "@[0]);
        reveal_strlit("Vortex86 SoC");
        assert(" KVMKVMKVM  "@[0] != "Vortex86 SoC"@[0]);
        reveal_strlit("  Shanghai  ");
        assert(" KVMKVMKVM  "@[1] != "  Shanghai  "@[1]);
        reveal_strlit("HygonGenuine");
        assert(" KVMKVMKVM  "@[0] != "HygonGenuine"@[0]);
        reveal_strlit("E2K MACHINE");
        assert(" KVMKVMKVM  "@.len() != "E2K MACHINE"@.len());
        reveal_strlit("MiSTer AO486");
        assert(" KVMKVMKVM  "@[0] != "MiSTer AO486"@[0]);
        reveal_strlit("bhyve bhyve ");
        assert(" KVMKVMKVM  "@[0] != "bhyve bhyve "@[0]);
    }
    assert(spec_vendor_name("TCGTCGTCGTCG"@) == Some("QEMU"@)) by {
        reveal_strlit("TCGTCGTCGTCG");
        reveal_strlit("AMDisbetter!");
        assert("TCGTCGTCGTCG"@[0] != "AMDisbetter!"@[0]);
        reveal_strlit("AuthenticAMD");
        assert("TCGTCGTCGTCG"@[0] != "AuthenticAMD"@[0]);
        reveal_strlit("CentaurHauls");
        assert("TCGTCGTCGTCG"@[0] != "CentaurHauls"@[0]);
        reveal_strlit("CyrixInstead");
        assert("TCGTCGTCGTCG"@[0] != "CyrixInstead"@[0]);
        reveal_strlit("GenuineIntel");
        assert("TCGTCGTCGTCG"@[0] != "GenuineIntel"@[0]);
        reveal_strlit("TransmetaCPU");
        assert("TCGTCGTCGTCG"@[1] != "TransmetaCPU"@[1]);
        reveal_strlit("GenuineTMx86");
        assert("TCGTCGTCGTCG"@[0] != "GenuineTMx86"@[0]);
        reveal_strlit("Geode by NSC");
        assert("TCGTCGTCGTCG"@[0] != "Geode by NSC"@[0]);
        reveal_strlit("NexGenDriven");
        assert("TCGTCGTCGTCG"@[0] != "NexGenDriven"@[0]);
        reveal_strlit("RiseRiseRise");
        assert("TCGTCGTCGTCG"@[0] != "RiseRiseRise"@[0]);
        reveal_strlit("SiS SiS SiS ");
        assert("TCGTCGTCGTCG"@[0] != "SiS SiS SiS "@[0]);
        reveal_strlit("UMC UMC UMC ");
        assert("TCGTCGTCGTCG"@[0] != "UMC UMC UMC "@[0]);
        reveal_strlit("VIA VIA VIA ");
        assert("TCGTCGTCGTCG"@[0] != "VIA VIA VIA "@[0]);
        reveal_strlit("Vortex86 SoC");
        assert("TCGTCGTCGTCG"@[0] != "Vortex86 SoC"@[0]);
        reveal_strlit("  Shanghai  ");
        assert("TCGTCGTCGTCG"@[0] != "  Shanghai  "@[0]);
        reveal_strlit("HygonGenuine");
        assert("TCGTCGTCGTCG"@[0] != "HygonGenuine"@[0]);
        reveal_strlit("E2K MACHINE");
        assert("TCGTCGTCGTCG"@.len() != "E2K MACHINE"@.len());
        reveal_strlit("MiSTer AO486");
        assert("TCGTCGTCGTCG"@[0] != "MiSTer AO486"@[0]);
        reveal_strlit("bhyve bhyve ");
        assert("TCGTCGTCGTCG"@[0] != "bhyve bhyve "@[0]);
        reveal_strlit(" KVMKVMKVM  ");
        assert("TCGTCGTCGTCG"@[0] != " KVMKVMKVM  "@[0]);
    }
    assert(spec_vendor_name("Microsoft Hv"@) == Some("Hyper-V"@)) by {
        reveal_strlit("Microsoft Hv");
        reveal_strlit("AMDisbetter!");
        assert("Microsoft Hv"@[0] != "AMDisbetter!"@[0]);
        reveal_strlit("AuthenticAMD");
        assert("Microsoft Hv"@[0] != "AuthenticAMD"@[0]);
        reveal_strlit("CentaurHauls");
        assert("Microsoft Hv"@[0] != "CentaurHauls"@[0]);
        reveal_strlit("CyrixInstead");
        assert("Microsoft Hv"@[0] != "CyrixInstead"@[0]);
        reveal_strlit("GenuineIntel");
        assert("Microsoft Hv"@[0] != "GenuineIntel"@[0]);
        reveal_strlit("TransmetaCPU");
        assert("Microsoft Hv"@[0] != "TransmetaCPU"@[0]);
        reveal_strlit("GenuineTMx86");
        assert("Microsoft Hv"@[0] != "GenuineTMx86"@[0]);
        reveal_strlit("Geode by NSC");
        assert("Microsoft Hv"@[0] != "Geode by NSC"@[0]);
        reveal_strlit("NexGenDriven");
        assert("Microsoft Hv"@[0] != "NexGenDriven"@[0]);
        reveal_strlit("RiseRiseRise");
        assert("Microsoft Hv"@[0] != "RiseRiseRise"@[0]);
        reveal_strlit("SiS SiS SiS ");
        assert("Microsoft Hv"@[0] != "SiS SiS SiS "@[0]);
        reveal_strlit("UMC UMC UMC ");
        assert("Microsoft Hv"@[0] != "UMC UMC UMC "@[0]);
        reveal_strlit("VIA VIA VIA ");
        assert("Microsoft Hv"@[0] != "VIA VIA VIA "@[0]);
        reveal_strlit("Vortex86 SoC");
        assert("Microsoft Hv"@[0] != "Vortex86 SoC"@[0]);
        reveal_strlit("  Shanghai  ");
        assert("Microsoft Hv"@[0] != "  Shanghai  "@[0]);
        reveal_strlit("HygonGenuine");
        assert("Microsoft Hv"@[0] != "HygonGenuine"@[0]);
        reveal_strlit("E2K MACHINE");
        assert("Microsoft Hv"@.len() != "E2K MACHINE"@.len());
        reveal_strlit("MiSTer AO486");
        assert("Microsoft Hv"@[2] != "MiSTer AO486"@[2]);
        reveal_strlit("bhyve bhyve ");
        assert("Microsoft Hv"@[0] != "bhyve bhyve "@[0]);
        reveal_strlit(" KVMKVMKVM  ");
        assert("Microsoft Hv"@[0] != " KVMKVMKVM  "@[0]);
        reveal_strlit("TCGTCGTCGTCG");
        assert("Microsoft Hv"@[0] != "TCGTCGTCGTCG"@[0]);
    }
    assert(spec_vendor_name(" lrpepyh  vr"@) == Some("Parallels"@)) by {
        reveal_strlit(" lrpepyh  vr");
        reveal_strlit("AMDisbetter!");
        assert(" lrpepyh  vr"@[0] != "AMDisbetter!"@[0]);
        reveal_strlit("AuthenticAMD");
        assert(" lrpepyh  vr"@[0] != "AuthenticAMD"@[0]);
        reveal_strlit("CentaurHauls");
        assert(" lrpepyh  vr"@[0] != "CentaurHauls"@[0]);
        reveal_strlit("CyrixInstead");
        assert(" lrpepyh  vr"@[0] != "CyrixInstead"@[0]);
        reveal_strlit("GenuineIntel");
        assert(" lrpepyh  vr"@[0] != "GenuineIntel"@[0]);
        reveal_strlit("TransmetaCPU");
        assert(" lrpepyh  vr"@[0] != "TransmetaCPU"@[0]);
        reveal_strlit("GenuineTMx86");
        assert(" lrpepyh  vr"@[0] != "GenuineTMx86"@[0]);
        reveal_strlit("Geode by NSC");
        assert(" lrpepyh  vr"@[0] != "Geode by NSC"@[0]);
        reveal_strlit("NexGenDriven");
        assert(" lrpepyh  vr"@[0] != "NexGenDriven"@[0]);
        reveal_strlit("RiseRiseRise");
        assert(" lrpepyh  vr"@[0] != "RiseRiseRise"@[0]);
        reveal_strlit("SiS SiS SiS ");
        assert(" lrpepyh  vr"@[0] != "SiS SiS SiS "@[0]);
        reveal_strlit("UMC UMC UMC ");
        assert(" lrpepyh  vr"@[0] != "UMC UMC UMC "@[0]);
        reveal_strlit("VIA VIA VIA ");
        assert(" lrpepyh  vr"@[0] != "VIA VIA VIA "@[0]);
        reveal_strlit("Vortex86 SoC");
        assert(" lrpepyh  vr"@[0] != "Vortex86 SoC"@[0]);
        reveal_strlit("  Shanghai  ");
        assert(" lrpepyh  vr"@[1] != "  Shanghai  "@[1]);
        reveal_strlit("HygonGenuine");
        assert(" lrpepyh  vr"@[0] != "HygonGenuine"@[0]);
        reveal_strlit("E2K MACHINE");
        assert(" lrpepyh  vr"@.len() != "E2K MACHINE"@.len());
        reveal_strlit("MiSTer AO486");
        assert(" lrpepyh  vr"@[0] != "MiSTer AO486"@[0]);
        reveal_strlit("bhyve bhyve ");
        assert(" lrpepyh  vr"@[0] != "bhyve bhyve "@[0]);
        reveal_strlit(" KVMKVMKVM  ");
        assert(" lrpepyh  vr"@[1] != " KVMKVMKVM  "@[1]);
        reveal_strlit("TCGTCGTCGTCG");
        assert(" lrpepyh  vr"@[0] != "TCGTCGTCGTCG"@[0]);
        reveal_strlit("Microsoft Hv");
        assert(" lrpepyh  vr"@[0] != "Microsoft Hv"@[0]);
    }
    assert(spec_vendor_name("VMwareVMware"@) == Some("VMware"@)) by {
        reveal_strlit("VMwareVMware");
        reveal_strlit("AMDisbetter!");
        assert("VMwareVMware"@[0] != "AMDisbetter!"@[0]);
        reveal_strlit("AuthenticAMD");
        assert("VMwareVMware"@[0] != "AuthenticAMD"@[0]);
        reveal_strlit("CentaurHauls");
        assert("VMwareVMware"@[0] != "CentaurHauls"@[0]);
        reveal_strlit("CyrixInstead");
        assert("VMwareVMware"@[0] != "CyrixInstead"@[0]);
        reveal_strlit("GenuineIntel");
        assert("VMwareVMware"@[0] != "GenuineIntel"@[0]);
        reveal_strlit("TransmetaCPU");
        assert("VMwareVMware"@[0] != "TransmetaCPU"@[0]);
        reveal_strlit("GenuineTMx86");
        assert("VMwareVMware"@[0] != "GenuineTMx86"@[0]);
        reveal_strlit("Geode by NSC");
        assert("VMwareVMware"@[0] != "Geode by NSC"@[0]);
        reveal_strlit("NexGenDriven");
        assert("VMwareVMware"@[0] != "NexGenDriven"@[0]);
        reveal_strlit("RiseRiseRise");
        assert("VMwareVMware"@[0] != "RiseRiseRise"@[0]);
        reveal_strlit("SiS SiS SiS ");
        assert("VMwareVMware"@[0] != "SiS SiS SiS "@[0]);
        reveal_strlit("UMC UMC UMC ");
        assert("VMwareVMware"@[0] != "UMC UMC UMC "@[0]);
        reveal_strlit("VIA VIA VIA ");
        assert("VMwareVMware"@[1] != "VIA VIA VIA "@[1]);
        reveal_strlit("Vortex86 SoC");
        assert("VMwareVMware"@[1] != "Vortex86 SoC"@[1]);
        reveal_strlit("  Shanghai  ");
        assert("VMwareVMware"@[0] != "  Shanghai  "@[0]);
        reveal_strlit("HygonGenuine");
        assert("VMwareVMware"@[0] != "HygonGenuine"@[0]);
        reveal_strlit("E2K MACHINE");
        assert("VMwareVMware"@.len() != "E2K MACHINE"@.len());
        reveal_strlit("MiSTer AO486");
        assert("VMwareVMware"@[0] != "MiSTer AO486"@[0]);
        reveal_strlit("bhyve bhyve ");
        assert("VMwareVMware"@[0] != "bhyve bhyve "@[0]);
        reveal_strlit(" KVMKVMKVM  ");
        assert("VMwareVMware"@[0] != " KVMKVMKVM  "@[0]);
        reveal_strlit("TCGTCGTCGTCG");
        assert("VMwareVMware"@[0] != "TCGTCGTCGTCG"@[0]);
        reveal_strlit("Microsoft Hv");
        assert("VMwareVMware"@[0] != "Microsoft Hv"@[0]);
        reveal_strlit(" lrpepyh  vr");
        assert("VMwareVMware"@[0] != " lrpepyh  vr"@[0]);
    }
    assert(spec_vendor_name("XenVMMXenVMM"@) == Some("Xen HVM"@)) by {
        reveal_strlit("XenVMMXenVMM");
        reveal_strlit("AMDisbetter!");
        assert("XenVMMXenVMM"@[0] != "AMDisbetter!"@[0]);
        reveal_strlit("AuthenticAMD");
        assert("XenVMMXenVMM"@[0] != "AuthenticAMD"@[0]);
        reveal_strlit("CentaurHauls");
        assert("XenVMMXenVMM"@[0] != "CentaurHauls"@[0]);
        reveal_strlit("CyrixInstead");
        assert("XenVMMXenVMM"@[0] != "CyrixInstead"@[0]);
        reveal_strlit("GenuineIntel");
        assert("XenVMMXenVMM"@[0] != "GenuineIntel"@[0]);
        reveal_strlit("TransmetaCPU");
        assert("XenVMMXenVMM"@[0] != "TransmetaCPU"@[0]);
        reveal_strlit("GenuineTMx86");
        assert("XenVMMXenVMM"@[0] != "GenuineTMx86"@[0]);
        reveal_strlit("Geode by NSC");
        assert("XenVMMXenVMM"@[0] != "Geode by NSC"@[0]);
        reveal_strlit("NexGenDriven");
        assert("XenVMMXenVMM"@[0] != "NexGenDriven"@[0]);
        reveal_strlit("RiseRiseRise");
        assert("XenVMMXenVMM"@[0] != "RiseRiseRise"@[0]);
        reveal_strlit("SiS SiS SiS ");
        assert("XenVMMXenVMM"@[0] != "SiS SiS SiS "@[0]);
        reveal_strlit("UMC UMC UMC ");
        assert("XenVMMXenVMM"@[0] != "UMC UMC UMC "@[0]);
        reveal_strlit("VIA VIA VIA ");
        assert("XenVMMXenVMM"@[0] != "VIA VIA VIA "@[0]);
        reveal_strlit("Vortex86 SoC");
        assert("XenVMMXenVMM"@[0] != "Vortex86 SoC"@[0]);
        reveal_strlit("  Shanghai  ");
        assert("XenVMMXenVMM"@[0] != "  Shanghai  "@[0]);
        reveal_strlit("HygonGenuine");
        assert("XenVMMXenVMM"@[0] != "HygonGenuine"@[0]);
        reveal_strlit("E2K MACHINE");
        assert("XenVMMXenVMM"@.len() != "E2K MACHINE"@.len());
        reveal_strlit("MiSTer AO486");
        assert("XenVMMXenVMM"@[0] != "MiSTer AO486"@[0]);
        reveal_strlit("bhyve bhyve ");
        assert("XenVMMXenVMM"@[0] != "bhyve bhyve "@[0]);
        reveal_strlit(" KVMKVMKVM  ");
        assert("XenVMMXenVMM"@[0] != " KVMKVMKVM  "@[0]);
        reveal_strlit("TCGTCGTCGTCG");
        assert("XenVMMXenVMM"@[0] != "TCGTCGTCGTCG"@[0]);
        reveal_strlit("Microsoft Hv");
        assert("XenVMMXenVMM"@[0] != "Microsoft Hv"@[0]);
        reveal_strlit(" lrpepyh  vr");
        assert("XenVMMXenVMM"@[0] != " lrpepyh  vr"@[0]);
        reveal_strlit("VMwareVMware");
        assert("XenVMMXenVMM"@[0] != "VMwareVMware"@[0]);
    }
    assert(spec_vendor_name("ACRNACRNACRN"@) == Some("ACRN"@)) by {
        reveal_strlit("ACRNACRNACRN");
        reveal_strlit("AMDisbetter!");
        assert("ACRNACRNACRN"@[1] != "AMDisbetter!"@[1]);
        reveal_strlit("AuthenticAMD");
        assert("ACRNACRNACRN"@[1] != "AuthenticAMD"@[1]);
        reveal_strlit("CentaurHauls");
        assert("ACRNACRNACRN"@[0] != "CentaurHauls"@[0]);
        reveal_strlit("CyrixInstead");
        assert("ACRNACRNACRN"@[0] != "CyrixInstead"@[0]);
        reveal_strlit("GenuineIntel");
        assert("ACRNACRNACRN"@[0] != "GenuineIntel"@[0]);
        reveal_strlit("TransmetaCPU");
        assert("ACRNACRNACRN"@[0] != "TransmetaCPU"@[0]);
        reveal_strlit("GenuineTMx86");
        assert("ACRNACRNACRN"@[0] != "GenuineTMx86"@[0]);
        reveal_strlit("Geode by NSC");
        assert("ACRNACRNACRN"@[0] != "Geode by NSC"@[0]);
        reveal_strlit("NexGenDriven");
        assert("ACRNACRNACRN"@[0] != "NexGenDriven"@[0]);
        reveal_strlit("RiseRiseRise");
        assert("ACRNACRNACRN"@[0] != "RiseRiseRise"@[0]);
        reveal_strlit("SiS SiS SiS ");
        assert("ACRNACRNACRN"@[0] != "SiS SiS SiS "@[0]);
        reveal_strlit("UMC UMC UMC ");
        assert("ACRNACRNACRN"@[0] != "UMC UMC UMC "@[0]);
        reveal_strlit("VIA VIA VIA ");
        assert("ACRNACRNACRN"@[0] != "VIA VIA VIA "@[0]);
        reveal_strlit("Vortex86 SoC");
        assert("ACRNACRNACRN"@[0] != "Vortex86 SoC"@[0]);
        reveal_strlit("  Shanghai  ");
        assert("ACRNACRNACRN"@[0] != "  Shanghai  "@[0]);
        reveal_strlit("HygonGenuine");
        assert("ACRNACRNACRN"@[0] != "HygonGenuine"@[0]);
        reveal_strlit("E2K MACHINE");
        assert("ACRNACRNACRN"@.len() != "E2K MACHINE"@.len());
        reveal_strlit("MiSTer AO486");
        assert("ACRNACRNACRN"@[0] != "MiSTer AO486"@[0]);
        reveal_strlit("bhyve bhyve ");
        assert("ACRNACRNACRN"@[0] != "bhyve bhyve "@[0]);
        reveal_strlit(" KVMKVMKVM  ");
        assert("ACRNACRNACRN"@[0] != " KVMKVMKVM  "@[0]);
        reveal_strlit("TCGTCGTCGTCG");
        assert("ACRNACRNACRN"@[0] != "TCGTCGTCGTCG"@[0]);
        reveal_strlit("Microsoft Hv");
        assert("ACRNACRNACRN"@[0] != "Microsoft Hv"@[0]);
        reveal_strlit(" lrpepyh  vr");
        assert("ACRNACRNACRN"@[0] != " lrpepyh  vr"@[0]);
        reveal_strlit("VMwareVMware");
        assert("ACRNACRNACRN"@[0] != "VMwareVMware"@[0]);
        reveal_strlit("XenVMMXenVMM");
        assert("ACRNACRNACRN"@[0] != "XenVMMXenVMM"@[0]);
    }
    assert(spec_vendor_name(" QNXQVMBSQG "@) == Some("QNX"@)) by {
        reveal_strlit(" QNXQVMBSQG ");
        reveal_strlit("AMDisbetter!");
        assert(" QNXQVMBSQG "@[0] != "AMDisbetter!"@[0]);
        reveal_strlit("AuthenticAMD");
        assert(" QNXQVMBSQG "@[0] != "AuthenticAMD"@[0]);
        reveal_strlit("CentaurHauls");
        assert(" QNXQVMBSQG "@[0] != "CentaurHauls"@[0]);
        reveal_strlit("CyrixInstead");
        assert(" QNXQVMBSQG "@[0] != "CyrixInstead"@[0]);
        reveal_strlit("GenuineIntel");
        assert(" QNXQVMBSQG "@[0] != "GenuineIntel"@[0]);
        reveal_strlit("TransmetaCPU");
        assert(" QNXQVMBSQG "@[0] != "TransmetaCPU"@[0]);
        reveal_strlit("GenuineTMx86");
        assert(" QNXQVMBSQG "@[0] != "GenuineTMx86"@[0]);
        reveal_strlit("Geode by NSC");
        assert(" QNXQVMBSQG "@[0] != "Geode by NSC"@[0]);
        reveal_strlit("NexGenDriven");
        assert(" QNXQVMBSQG "@[0] != "NexGenDriven"@[0]);
        reveal_strlit("RiseRiseRise");
        assert(" QNXQVMBSQG "@[0] != "RiseRiseRise"@[0]);
        reveal_strlit("SiS SiS SiS ");
        assert(" QNXQVMBSQG "@[0] != "SiS SiS SiS "@[0]);
        reveal_strlit("UMC UMC UMC ");
        assert(" QNXQVMBSQG "@[0] != "UMC UMC UMC "@[0]);
        reveal_strlit("VIA VIA VIA ");
        assert(" QNXQVMBSQG "@[0] != "VIA VIA VIA "@[0]);
        reveal_strlit("Vortex86 SoC");
        assert(" QNXQVMBSQG "@[0] != "Vortex86 SoC"@[0]);
        reveal_strlit("  Shanghai  ");
        assert(" QNXQVMBSQG "@[1] != "  Shanghai  "@[1]);
        reveal_strlit("HygonGenuine");
        assert(" QNXQVMBSQG "@[0] != "HygonGenuine"@[0]);
        reveal_strlit("E2K MACHINE");
        assert(" QNXQVMBSQG "@.len() != "E2K MACHINE"@.len());
        reveal_strlit("MiSTer AO486");
        assert(" QNXQVMBSQG "@[0] != "MiSTer AO486"@[0]);
        reveal_strlit("bhyve bhyve ");
        assert(" QNXQVMBSQG "@[0] != "bhyve bhyve "@[0]);
        reveal_strlit(" KVMKVMKVM  ");
        assert(" QNXQVMBSQG "@[1] != " KVMKVMKVM  "@[1]);
        reveal_strlit("TCGTCGTCGTCG");
        assert(" QNXQVMBSQG "@[0] != "TCGTCGTCGTCG"@[0]);
        reveal_strlit("Microsoft Hv");
        assert(" QNXQVMBSQG "@[0] != "Microsoft Hv"@[0]);
        reveal_strlit(" lrpepyh  vr");
        assert(" QNXQVMBSQG "@[1] != " lrpepyh  vr"@[1]);
        reveal_strlit("VMwareVMware");
        assert(" QNXQVMBSQG "@[0] != "VMwareVMware"@[0]);
        reveal_strlit("XenVMMXenVMM");
        assert(" QNXQVMBSQG "@[0] != "XenVMMXenVMM"@[0]);
        reveal_strlit("ACRNACRNACRN");
        assert(" QNXQVMBSQG "@[0] != "ACRNACRNACRN"@[0]);
    }
}

fn id_is(id: &Vec<char>, known: &str) -> (res: bool)
    ensures
        res == (id@ == known@),
{
    let k = chars_of(known);
    chars_equal(id, &k)
}

fn string_of(s: &str) -> (res: String)
    ensures
        res@ == s@,
{
    let mut res = String::new();
    push_str(&mut res, s);
    res
}

/// The vendor's name for a CPUID vendor string, or `None` for a vendor string
/// the badge does not know.
pub fn normalize_vendor_name(vendor_name: &String) -> (res: Option<String>)
    ensures
        match spec_vendor_name(vendor_name@) {
            Some(name) => res matches Some(r) && r@ == name,
            None => res is None,
        },
{
    let id = chars_of(vendor_name.as_str());
    if id_is(&id, "AMDisbetter!") {
        return Some(string_of("AMD"));
    }
    if id_is(&id, "AuthenticAMD") {
        return Some(string_of("AMD"));
    }
    if id_is(&id, "CentaurHauls") {
        return Some(string_of("Centaur"));
    }
    if id_is(&id, "CyrixInstead") {
        return Some(string_of("Cyrix"));
    }
    if id_is(&id, "GenuineIntel") {
        return Some(string_of("Intel"));
    }
    if id_is(&id, "TransmetaCPU") {
        return Some(string_of("Transmeta"));
    }
    if id_is(&id, "GenuineTMx86") {
        return Some(string_of("Transmeta"));
    }
    if id_is(&id, "Geode by NSC") {
        return Some(string_of("National Semiconductor"));
    }
    if id_is(&id, "NexGenDriven") {
        return Some(string_of("NexGen"));
    }
    if id_is(&id, "RiseRiseRise") {
        return Some(string_of("Rise"));
    }
    if id_is(&id, "SiS SiS SiS ") {
        return Some(string_of("SiS"));
    }
    if id_is(&id, "UMC UMC UMC ") {
        return Some(string_of("UMC"));
    }
    if id_is(&id, "VIA VIA VIA ") {
        return Some(string_of("VIA"));
    }
    if id_is(&id, "Vortex86 SoC") {
        return Some(string_of("DM&P Vortex86"));
    }
    if id_is(&id, "  Shanghai  ") {
        return Some(string_of("Zhaoxin"));
    }
    if id_is(&id, "HygonGenuine") {
        return Some(string_of("Hygon"));
    }
    if id_is(&id, "E2K MACHINE") {
        return Some(string_of("MCST Elbrus"));
    }
    if id_is(&id, "MiSTer AO486") {
        return Some(string_of("ao486"));
    }
    if id_is(&id, "bhyve bhyve ") {
        return Some(string_of("bhyve"));
    }
    if id_is(&id, " KVMKVMKVM  ") {
        return Some(string_of("KVM"));
    }
    if id_is(&id, "TCGTCGTCGTCG") {
        return Some(string_of("QEMU"));
    }
    if id_is(&id, "Microsoft Hv") {
        return Some(string_of("Hyper-V"));
    }
    if id_is(&id, " lrpepyh  vr") {
        return Some(string_of("Parallels"));
    }
    if id_is(&id, "VMwareVMware") {
        return Some(string_of("VMware"));
    }
    if id_is(&id, "XenVMMXenVMM") {
        return Some(string_of("Xen HVM"));
    }
    if id_is(&id, "ACRNACRNACRN") {
        return Some(string_of("ACRN"));
    }
    if id_is(&id, " QNXQVMBSQG ") {
        return Some(string_of("QNX"));
    }
    None
}


/// The number of unit prefixes the badge knows: k, M, G and T.
pub const FREQUENCY_PREFIXES: usize = 4;

/// How many times a frequency in kHz is divided by 1000 before it shows,
/// i.e. how many times `f /= 1000` runs while `f > 1000` in exact
/// arithmetic: the largest `k` with `frequency > 1000^k` (a `u32` is below
/// `1000^4`).
pub open spec fn spec_frequency_power(frequency: u32) -> nat {
    if frequency > 1_000_000_000 {
        3
    } else if frequency > 1_000_000 {
        2
    } else if frequency > 1000 {
        1
    } else {
        0
    }
}

/// The prefix of the unit after `power` divisions of a frequency in kHz.
pub open spec fn spec_frequency_prefix(power: nat) -> char {
    if power == 0 {
        'k'
    } else if power == 1 {
        'M'
    } else if power == 2 {
        'G'
    } else {
        'T'
    }
}

/// How many times the frequency (in kHz) is divided by 1000 for display:
/// while the scaled value exceeds 1000 it is divided again; a count beyond
/// the known prefixes falls back to 0 (no division).
pub fn frequency_power(frequency: u32) -> (res: usize)
    ensures
        res == spec_frequency_power(frequency),
{
    let f = frequency as u64;
    let mut scale: u64 = 1;
    let mut powers: usize = 0;
    while f > scale * 1000
        invariant
            f == frequency,
            f <= u32::MAX,
            powers <= 3,
            scale == (if powers == 0 {
                1u64
            } else if powers == 1 {
                1000u64
            } else if powers == 2 {
                1_000_000u64
            } else {
                1_000_000_000u64
            }),
            powers as nat <= spec_frequency_power(frequency),
        decreases 3 - powers,
    {
        scale = scale * 1000;
        powers += 1;
    }
    if powers > FREQUENCY_PREFIXES {
        powers = 0;
    }
    powers
}

/// The prefix of the unit (`k`, `M`, `G`, `T`) after `power` divisions.
pub fn frequency_prefix(power: usize) -> (res: char)
    requires
        power < FREQUENCY_PREFIXES,
    ensures
        res == spec_frequency_prefix(power as nat),
{
    if power == 0 {
        'k'
    } else if power == 1 {
        'M'
    } else if power == 2 {
        'G'
    } else {
        'T'
    }
}

/// Every `u32` frequency gets one of the known prefixes: the fallback of
/// `frequency_power` to no division is never taken.
pub proof fn law_frequency_power_in_range(frequency: u32)
    ensures
        spec_frequency_power(frequency) < FREQUENCY_PREFIXES,
        spec_frequency_power(frequency) == 0 <==> frequency <= 1000,
{
}

/// Why the badge cannot be drawn from the processor table.
#[derive(Clone, Copy, Debug, PartialEq, Eq)]
pub enum BadgeError {
    /// The table has no `vendor_id`.
    MissingVendor,
    /// The `vendor_id` is not one the badge knows.
    UnknownVendor,
    /// The table has no `model name`.
    MissingModel,
}

/// The two text lines of the badge.
#[derive(Clone, Debug, PartialEq, Eq)]
pub struct BadgeText {
    pub vendor: String,
    pub model: String,
}

/// The vendor's name and the model for the badge, from the table of
/// `/proc/cpuinfo`.
pub fn badge_text(cpuinfo: &CpuInfoMap) -> (res: Result<BadgeText, BadgeError>)
    ensures
        !cpuinfo.view().contains_key("vendor_id"@) ==> res == Err::<BadgeText, BadgeError>(
            BadgeError::MissingVendor,
        ),
        cpuinfo.view().contains_key("vendor_id"@) && spec_vendor_name(
            cpuinfo.view()["vendor_id"@],
        ) is None ==> res == Err::<BadgeText, BadgeError>(BadgeError::UnknownVendor),
        cpuinfo.view().contains_key("vendor_id"@) && spec_vendor_name(
            cpuinfo.view()["vendor_id"@],
        ) is Some && !cpuinfo.view().contains_key("model name"@) ==> res == Err::<
            BadgeText,
            BadgeError,
        >(BadgeError::MissingModel),
        cpuinfo.view().contains_key("vendor_id"@) && spec_vendor_name(
            cpuinfo.view()["vendor_id"@],
        ) is Some && cpuinfo.view().contains_key("model name"@) ==> (match res {
            Ok(text) => text.vendor@ == spec_vendor_name(cpuinfo.view()["vendor_id"@])->0
                && text.model@ == cpuinfo.view()["model name"@],
            Err(_) => false,
        }),
        res matches Ok(text) ==> {
            &&& cpuinfo.view().contains_key("vendor_id"@)
            &&& cpuinfo.view().contains_key("model name"@)
            &&& spec_vendor_name(cpuinfo.view()["vendor_id"@]) == Some(text.vendor@)
            &&& text.model@ == cpuinfo.view()["model name"@]
        },
{
    let vendor_id = match cpuinfo.get("vendor_id") {
        Some(v) => v,
        None => return Err(BadgeError::MissingVendor),
    };
    let vendor = match normalize_vendor_name(vendor_id) {
        Some(v) => v,
        None => return Err(BadgeError::UnknownVendor),
    };
    let model = match cpuinfo.get("model name") {
        Some(m) => m.clone(),
        None => return Err(BadgeError::MissingModel),
    };
    Ok(BadgeText { vendor, model })
}

} // verus!
